//! The client's configuration: server, credentials and colour theme.
use vstd::prelude::*;

verus! {

/// The named colours that the default theme uses.
#[derive(Clone, Copy, PartialEq, Eq, Structural)]
enum NamedColor {
    Reset,
    Gray,
}

/// Relies on the terminal widget library's `Display for Color`, which writes a
/// named colour as the name of its variant.
#[verifier::external_body]
fn color_name(c: NamedColor) -> (r: String)
    ensures
        c == NamedColor::Reset ==> r@ == "Reset"@,
        c == NamedColor::Gray ==> r@ == "Gray"@,
{
    let color = match c {
        NamedColor::Reset => tuirealm::props::Color::Reset,
        NamedColor::Gray => tuirealm::props::Color::Gray,
    };
    color.to_string()
}

/// The colours, by name, in which entry titles are drawn.
#[derive(Debug)]
pub struct ThemeConfig {
    pub unread_color: String,
    pub read_color: String,
}

impl Clone for ThemeConfig {
    fn clone(&self) -> (r: Self)
        ensures
            r == *self,
    {
        ThemeConfig { unread_color: self.unread_color.clone(), read_color: self.read_color.clone() }
    }
}

impl ThemeConfig {
    pub fn default_unread_color() -> (r: String)
        ensures
            r@ == "Reset"@,
    {
        color_name(NamedColor::Reset)
    }

    pub fn default_read_color() -> (r: String)
        ensures
            r@ == "Gray"@,
    {
        color_name(NamedColor::Gray)
    }

    /// The colour name for titles of entries with the given status.
    pub open spec fn spec_color_for(self, status: crate::feed::ReadStatus) -> String {
        match status {
            crate::feed::ReadStatus::Read => self.read_color,
            crate::feed::ReadStatus::Unread => self.unread_color,
        }
    }

    pub fn color_for(&self, status: crate::feed::ReadStatus) -> (r: &String)
        ensures
            *r == self.spec_color_for(status),
    {
        match status {
            crate::feed::ReadStatus::Read => &self.read_color,
            crate::feed::ReadStatus::Unread => &self.unread_color,
        }
    }
}

impl Default for ThemeConfig {
    fn default() -> (r: Self)
        ensures
            r.unread_color@ == "Reset"@,
            r.read_color@ == "Gray"@,
    {
        ThemeConfig {
            unread_color: ThemeConfig::default_unread_color(),
            read_color: ThemeConfig::default_read_color(),
        }
    }
}

/// Whether a character has Unicode's White_Space property.
pub uninterp spec fn is_white_space(c: char) -> bool;

/// Relies on `char::is_whitespace`, which tells whether a character has the
/// White_Space property; that is the whitespace that `str::trim` removes.
#[verifier::external_body]
fn char_is_whitespace(c: char) -> (r: bool)
    ensures
        r == is_white_space(c),
{
    c.is_whitespace()
}

/// Whether a text is empty once surrounding whitespace is trimmed.
pub open spec fn is_blank(s: Seq<char>) -> bool {
    forall|i: int| 0 <= i < s.len() ==> is_white_space(#[trigger] s[i])
}

/// Whether every character of a text is whitespace, so that trimming leaves
/// nothing.
pub fn is_blank_text(s: &str) -> (r: bool)
    ensures
        r == is_blank(s@),
{
    let n = s.unicode_len();
    let mut i: usize = 0;
    while i < n
        invariant
            n == s@.len(),
            i <= n,
            forall|j: int| 0 <= j < i ==> is_white_space(#[trigger] s@[j]),
        decreases n - i,
    {
        if !char_is_whitespace(s.get_char(i)) {
            return false;
        }
        i += 1;
    }
    true
}

/// A server URL with one trailing slash removed, if it has one.
pub open spec fn cleaned_url(s: Seq<char>) -> Seq<char> {
    if s.len() > 0 && s.last() == '/' {
        s.drop_last()
    } else {
        s
    }
}

/// Where and how to reach the feed service.
#[derive(Debug)]
pub struct Config {
    pub api_key: String,
    pub server_url: String,
    pub allow_invalid_certs: bool,
    pub use_rustls: bool,
    pub theme: ThemeConfig,
}

impl Config {
    /// Rejects a blank server URL and removes one trailing slash from any other.
    pub fn validate_and_clean_server_url(url: String) -> (r: Result<String, InvalidServerUrlError>)
        ensures
            r.is_err() <==> is_blank(url@),
            r matches Err(e) ==> e.value@ == url@,
            r matches Ok(u) ==> u@ == cleaned_url(url@),
    {
        let blank = is_blank_text(url.as_str());
        Config::checked_server_url(url, blank)
    }

    /// The server URL once it is known whether it is blank: a blank one is
    /// refused, any other loses one trailing slash.
    pub fn checked_server_url(url: String, blank: bool) -> (r: Result<String, InvalidServerUrlError>)
        ensures
            r.is_err() <==> blank,
            r matches Err(e) ==> e.value@ == url@,
            r matches Ok(u) ==> u@ == cleaned_url(url@),
    {
        if blank {
            Err(InvalidServerUrlError { value: url })
        } else {
            Ok(Config::without_trailing_slash(url))
        }
    }

    fn without_trailing_slash(url: String) -> (r: String)
        ensures
            r@ == cleaned_url(url@),
    {
        let n = url.as_str().unicode_len();
        if n > 0 && url.as_str().get_char(n - 1) == '/' {
            let r = String::from_str(url.as_str().substring_char(0, n - 1));
            assert(r@ =~= cleaned_url(url@));
            r
        } else {
            url
        }
    }

    /// A configuration as read from its file, with its server URL checked and
    /// cleaned; every other setting is kept.
    pub fn validated(self) -> (r: Result<Config, InvalidServerUrlError>)
        ensures
            r.is_err() <==> is_blank(self.server_url@),
            r matches Err(e) ==> e.value@ == self.server_url@,
            r matches Ok(c) ==> c.server_url@ == cleaned_url(self.server_url@) && c.api_key
                == self.api_key && c.allow_invalid_certs == self.allow_invalid_certs
                && c.use_rustls == self.use_rustls && c.theme == self.theme,
    {
        match Config::validate_and_clean_server_url(self.server_url) {
            Ok(server_url) => Ok(
                Config {
                    api_key: self.api_key,
                    server_url,
                    allow_invalid_certs: self.allow_invalid_certs,
                    use_rustls: self.use_rustls,
                    theme: self.theme,
                },
            ),
            Err(e) => Err(e),
        }
    }
}

impl Default for Config {
    /// The configuration written by `--init`, with placeholders to fill in.
    fn default() -> (r: Self)
        ensures
            r.api_key@ == "FIXME"@,
            r.server_url@ == "FIXME"@,
            !r.allow_invalid_certs,
            !r.use_rustls,
            r.theme.unread_color@ == "Reset"@,
            r.theme.read_color@ == "Gray"@,
    {
        Config {
            api_key: String::from_str("FIXME"),
            server_url: String::from_str("FIXME"),
            allow_invalid_certs: false,
            use_rustls: false,
            theme: ThemeConfig::default(),
        }
    }
}

/// The configuration directory could not be determined.
#[derive(Debug, Clone, Copy)]
pub struct CannotFindConfigDirError;

impl CannotFindConfigDirError {
    pub fn message(&self) -> (r: String)
        ensures
            r@ == "Couldn't figure out where to put the config file. This should only happen if the user somehow doesn't have a home directory"@,
    {
        String::from_str(
            "Couldn't figure out where to put the config file. This should only happen if the user somehow doesn't have a home directory",
        )
    }
}

/// A configuration file is already present where a new one would be written.
#[derive(Debug)]
pub struct ConfigFileAlreadyExistsError {
    pub path: String,
}

impl ConfigFileAlreadyExistsError {
    pub fn message(&self) -> (r: String)
        ensures
            r@ == "Configuration file already exists at "@ + self.path@,
    {
        let mut r = String::from_str("Configuration file already exists at ");
        r.append(self.path.as_str());
        r
    }
}

/// The configured server URL is blank.
#[derive(Debug)]
pub struct InvalidServerUrlError {
    pub value: String,
}

impl InvalidServerUrlError {
    pub fn message(&self) -> (r: String)
        ensures
            r@ == "Invalid server url: \""@ + self.value@ + "\""@,
    {
        let mut r = String::from_str("Invalid server url: \"");
        r.append(self.value.as_str());
        r.append("\"");
        r
    }
}

} // verus!
