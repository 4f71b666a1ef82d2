use directories::ProjectDirs;
use std::path::PathBuf;
use vstd::prelude::*;

verus! {

/// The pointer button that one click presses and releases.
#[derive(Clone, Copy, Debug, PartialEq, Eq, Structural)]
pub enum ClickType {
    Left,
    Right,
    Middle,
}

impl Default for ClickType {
    fn default() -> (r: Self)
        ensures
            r == ClickType::Left,
    {
        ClickType::Left
    }
}

/// `mouse_event` flag: left button down.
pub const MOUSEEVENTF_LEFTDOWN: u32 = 0x0002;
/// `mouse_event` flag: left button up.
pub const MOUSEEVENTF_LEFTUP: u32 = 0x0004;
/// `mouse_event` flag: right button down.
pub const MOUSEEVENTF_RIGHTDOWN: u32 = 0x0008;
/// `mouse_event` flag: right button up.
pub const MOUSEEVENTF_RIGHTUP: u32 = 0x0010;
/// `mouse_event` flag: middle button down.
pub const MOUSEEVENTF_MIDDLEDOWN: u32 = 0x0020;
/// `mouse_event` flag: middle button up.
pub const MOUSEEVENTF_MIDDLEUP: u32 = 0x0040;

/// The button that a label names, if any.
pub open spec fn click_type_of_label(l: Seq<char>) -> Option<ClickType> {
    if l == "Left"@ {
        Some(ClickType::Left)
    } else if l == "Right"@ {
        Some(ClickType::Right)
    } else if l == "Middle"@ {
        Some(ClickType::Middle)
    } else {
        None
    }
}

/// Each label names its own button.
pub proof fn lemma_label_names_button(t: ClickType)
    ensures
        click_type_of_label(t.label()) == Some(t),
{
    reveal_strlit("Left");
    reveal_strlit("Right");
    reveal_strlit("Middle");
    assert("Left"@.len() == 4 && "Right"@.len() == 5 && "Middle"@.len() == 6);
}

impl ClickType {
    /// The label under which a button is shown and stored.
    pub open spec fn label(self) -> Seq<char> {
        match self {
            ClickType::Left => "Left"@,
            ClickType::Right => "Right"@,
            ClickType::Middle => "Middle"@,
        }
    }

    /// The pair of input-event flags (press, release) for a button.
    pub open spec fn flags(self) -> (u32, u32) {
        match self {
            ClickType::Left => (MOUSEEVENTF_LEFTDOWN, MOUSEEVENTF_LEFTUP),
            ClickType::Right => (MOUSEEVENTF_RIGHTDOWN, MOUSEEVENTF_RIGHTUP),
            ClickType::Middle => (MOUSEEVENTF_MIDDLEDOWN, MOUSEEVENTF_MIDDLEUP),
        }
    }

    /// Every button, in the order in which a chooser lists them.
    pub open spec fn all_spec() -> Seq<ClickType> {
        seq![ClickType::Left, ClickType::Right, ClickType::Middle]
    }

    pub fn name(&self) -> (r: &'static str)
        ensures
            r@ == self.label(),
    {
        match self {
            ClickType::Left => "Left",
            ClickType::Right => "Right",
            ClickType::Middle => "Middle",
        }
    }

    /// Parses a label back into a button; any other text is refused.
    pub fn from_name(text: &str) -> (r: Option<ClickType>)
        ensures
            r == click_type_of_label(text@),
    {
        proof {
            reveal_strlit("Left");
            reveal_strlit("Right");
            reveal_strlit("Middle");
        }
        let n = text.unicode_len();
        if n == 4 && text.get_char(0) == 'L' && text.get_char(1) == 'e' && text.get_char(2) == 'f'
            && text.get_char(3) == 't' {
            assert(text@ =~= "Left"@);
            Some(ClickType::Left)
        } else if n == 5 && text.get_char(0) == 'R' && text.get_char(1) == 'i' && text.get_char(2)
            == 'g' && text.get_char(3) == 'h' && text.get_char(4) == 't' {
            assert(text@ =~= "Right"@);
            Some(ClickType::Right)
        } else if n == 6 && text.get_char(0) == 'M' && text.get_char(1) == 'i' && text.get_char(2)
            == 'd' && text.get_char(3) == 'd' && text.get_char(4) == 'l' && text.get_char(5)
            == 'e' {
            assert(text@ =~= "Middle"@);
            Some(ClickType::Middle)
        } else {
            assert(text@ != "Left"@ && text@ != "Right"@ && text@ != "Middle"@) by {
                if text@ == "Left"@ {
                    assert(text@[0] == 'L' && text@[1] == 'e' && text@[2] == 'f' && text@[3] == 't');
                }
                if text@ == "Right"@ {
                    assert(text@[0] == 'R' && text@[1] == 'i' && text@[2] == 'g' && text@[3] == 'h'
                        && text@[4] == 't');
                }
                if text@ == "Middle"@ {
                    assert(text@[0] == 'M' && text@[1] == 'i' && text@[2] == 'd' && text@[3] == 'd'
                        && text@[4] == 'l' && text@[5] == 'e');
                }
            }
            None
        }
    }

    pub fn event_flags(&self) -> (r: (u32, u32))
        ensures
            r == self.flags(),
    {
        match self {
            ClickType::Left => (MOUSEEVENTF_LEFTDOWN, MOUSEEVENTF_LEFTUP),
            ClickType::Right => (MOUSEEVENTF_RIGHTDOWN, MOUSEEVENTF_RIGHTUP),
            ClickType::Middle => (MOUSEEVENTF_MIDDLEDOWN, MOUSEEVENTF_MIDDLEUP),
        }
    }

    pub fn all() -> (r: Vec<ClickType>)
        ensures
            r@ == Self::all_spec(),
    {
        let r = vec![ClickType::Left, ClickType::Right, ClickType::Middle];
        assert(r@ =~= Self::all_spec());
        r
    }
}

/// The configuration that the clicker and the shortcut listener read: a plain
/// value, copied wherever it is handed on.
#[derive(Clone, Copy, Debug, PartialEq, Eq, Structural)]
pub struct Settings {
    /// Virtual-key code of the key that toggles clicking, if one is bound.
    pub activation_key: Option<u32>,
    /// Pause after each click, in milliseconds.
    pub click_delay_ms: u64,
    /// How long the button is held down in each click, in milliseconds.
    pub click_duration_ms: u64,
    pub click_type: ClickType,
}

/// The settings used when none were saved or the saved ones cannot be read.
pub open spec fn default_settings() -> Settings {
    Settings {
        activation_key: None,
        click_delay_ms: 100,
        click_duration_ms: 0,
        click_type: ClickType::Left,
    }
}

impl Default for Settings {
    fn default() -> (r: Self)
        ensures
            r == default_settings(),
    {
        Settings {
            activation_key: None,
            click_delay_ms: 100,
            click_duration_ms: 0,
            click_type: ClickType::Left,
        }
    }
}

pub open spec fn is_digit(c: char) -> bool {
    '0' <= c && c <= '9'
}

pub open spec fn digit_value(c: char) -> nat {
    (c as u32 - '0' as u32) as nat
}

/// The number that a string of decimal digits denotes.
pub open spec fn digits_value(s: Seq<char>) -> nat
    decreases s.len(),
{
    if s.len() == 0 {
        0
    } else {
        digits_value(s.drop_last()) * 10 + digit_value(s.last())
    }
}

/// The digits of a number's text: what follows an optional leading `+`.
pub open spec fn unsigned_digits(s: Seq<char>) -> Seq<char> {
    if s.len() > 0 && s[0] == '+' {
        s.drop_first()
    } else {
        s
    }
}

/// What reading text as a `u64` gives: an optional `+`, then at least one
/// decimal digit and nothing else, denoting a value that fits in 64 bits.
pub open spec fn parse_u64_spec(s: Seq<char>) -> Option<u64> {
    let d = unsigned_digits(s);
    if d.len() > 0 && (forall|i: int| 0 <= i < d.len() ==> is_digit(#[trigger] d[i]))
        && digits_value(d) <= u64::MAX {
        Some(digits_value(d) as u64)
    } else {
        None
    }
}

proof fn lemma_digits_prefix_le(s: Seq<char>, k: int)
    requires
        0 <= k <= s.len(),
    ensures
        digits_value(s.subrange(0, k)) <= digits_value(s),
    decreases s.len(),
{
    if k < s.len() {
        assert(s.drop_last() =~= s.subrange(0, s.len() - 1));
        lemma_digits_prefix_le(s.drop_last(), k);
        assert(s.drop_last().subrange(0, k) =~= s.subrange(0, k));
    } else {
        assert(s.subrange(0, k) =~= s);
    }
}

/// Reads a count of milliseconds typed by the user.
pub fn parse_millis(text: &str) -> (r: Option<u64>)
    ensures
        r == parse_u64_spec(text@),
{
    let n = text.unicode_len();
    let mut start: usize = 0;
    if n > 0 && text.get_char(0) == '+' {
        start = 1;
    }
    let ghost d = unsigned_digits(text@);
    assert(d =~= text@.subrange(start as int, n as int));
    if start == n {
        return None;
    }
    let mut v: u64 = 0;
    let mut i: usize = start;
    while i < n
        invariant
            start <= i <= n,
            n == text@.len(),
            d == unsigned_digits(text@),
            d == text@.subrange(start as int, n as int),
            forall|j: int| 0 <= j < i - start ==> is_digit(#[trigger] d[j]),
            v == digits_value(d.subrange(0, i - start)),
        decreases n - i,
    {
        let c = text.get_char(i);
        if !('0' <= c && c <= '9') {
            assert(d[i - start] == c);
            assert(!is_digit(d[i - start]));
            assert(!(forall|j: int| 0 <= j < d.len() ==> is_digit(#[trigger] d[j])));
            return None;
        }
        let ghost k = i - start;
        assert(d.subrange(0, k + 1).drop_last() =~= d.subrange(0, k));
        assert(d.subrange(0, k + 1).last() == c);
        let digit = (c as u32 - '0' as u32) as u64;
        let next = match v.checked_mul(10) {
            Some(t) => t.checked_add(digit),
            None => None,
        };
        match next {
            Some(t) => {
                v = t;
            },
            None => {
                proof {
                    lemma_digits_prefix_le(d, k + 1);
                    assert(digits_value(d.subrange(0, k + 1)) == v * 10 + digit);
                    assert(v * 10 + digit > u64::MAX) by (nonlinear_arith)
                        requires
                            v * 10 > u64::MAX || v * 10 + digit > u64::MAX,
                    {}
                }
                return None;
            },
        }
        i = i + 1;
    }
    assert(d.subrange(0, d.len() as int) =~= d);
    Some(v)
}

#[verifier::external_type_specification]
#[verifier::external_body]
pub struct ExPathBuf(PathBuf);

/// Relies on `directories::ProjectDirs::from` and `ProjectDirs::config_dir`:
/// the per-user configuration directory of the named application, or `None`
/// where no home directory can be found. The answer depends on the
/// environment, so nothing more is claimed of it.
#[verifier::external_body]
fn project_config_dir(qualifier: &str, organization: &str, application: &str) -> (r: Option<
    PathBuf,
>) {
    ProjectDirs::from(qualifier, organization, application).map(|d| d.config_dir().to_path_buf())
}

/// Relies on `std::path::Path::join`: the directory with one more component.
#[verifier::external_body]
fn join_path(dir: &PathBuf, name: &str) -> (r: PathBuf) {
    dir.join(name)
}

impl Settings {
    /// The directory where this application keeps its configuration, where
    /// the platform has one for the current user.
    pub fn get_config_directory_path() -> (r: Option<PathBuf>) {
        project_config_dir("com.github", "trickybestia", "rsautoclicker")
    }

    /// The file where the settings are saved: `config.json` in the
    /// configuration directory, or `None` where that directory is unknown.
    pub fn get_config_file_path() -> (r: Option<PathBuf>) {
        match Self::get_config_directory_path() {
            Some(dir) => Some(join_path(&dir, "config.json")),
            None => None,
        }
    }

    /// The settings read at start-up, or the defaults where reading failed.
    pub fn load_or_default(loaded: Result<Settings, ()>) -> (r: Settings)
        ensures
            r == (match loaded {
                Ok(s) => s,
                Err(_) => default_settings(),
            }),
    {
        match loaded {
            Ok(s) => s,
            Err(_) => Settings::default(),
        }
    }

    /// Takes a delay typed by the user; text that is no count of milliseconds
    /// leaves the settings as they were.
    pub fn with_click_delay_text(self, text: &str) -> (r: Settings)
        ensures
            r == (match parse_u64_spec(text@) {
                Some(ms) => Settings { click_delay_ms: ms, ..self },
                None => self,
            }),
    {
        match parse_millis(text) {
            Some(ms) => Settings { click_delay_ms: ms, ..self },
            None => self,
        }
    }

    /// Takes a hold time typed by the user; text that is no count of
    /// milliseconds leaves the settings as they were.
    pub fn with_click_duration_text(self, text: &str) -> (r: Settings)
        ensures
            r == (match parse_u64_spec(text@) {
                Some(ms) => Settings { click_duration_ms: ms, ..self },
                None => self,
            }),
    {
        match parse_millis(text) {
            Some(ms) => Settings { click_duration_ms: ms, ..self },
            None => self,
        }
    }
}

/// The settings as they are saved: the button by its label, durations in
/// milliseconds.
pub struct SettingsDocument {
    pub activation_key: Option<u32>,
    pub click_delay_ms: u64,
    pub click_duration_ms: u64,
    pub click_type: String,
}

/// Whether a saved record holds exactly the given settings.
pub open spec fn documents(doc: SettingsDocument, s: Settings) -> bool {
    &&& doc.activation_key == s.activation_key
    &&& doc.click_delay_ms == s.click_delay_ms
    &&& doc.click_duration_ms == s.click_duration_ms
    &&& doc.click_type@ == s.click_type.label()
}

/// The settings that a saved record gives: `None` where its button label
/// names no button.
pub open spec fn settings_of_document(doc: SettingsDocument) -> Option<Settings> {
    match click_type_of_label(doc.click_type@) {
        Some(t) => Some(
            Settings {
                activation_key: doc.activation_key,
                click_delay_ms: doc.click_delay_ms,
                click_duration_ms: doc.click_duration_ms,
                click_type: t,
            },
        ),
        None => None,
    }
}

impl Settings {
    /// The record under which these settings are saved.
    pub fn to_document(&self) -> (r: SettingsDocument)
        ensures
            documents(r, *self),
    {
        SettingsDocument {
            activation_key: self.activation_key,
            click_delay_ms: self.click_delay_ms,
            click_duration_ms: self.click_duration_ms,
            click_type: String::from_str(self.click_type.name()),
        }
    }

    /// The settings that a saved record holds, or `None` where it names no
    /// known button.
    pub fn from_document(doc: &SettingsDocument) -> (r: Option<Settings>)
        ensures
            r == settings_of_document(*doc),
    {
        match ClickType::from_name(doc.click_type.as_str()) {
            Some(t) => Some(
                Settings {
                    activation_key: doc.activation_key,
                    click_delay_ms: doc.click_delay_ms,
                    click_duration_ms: doc.click_duration_ms,
                    click_type: t,
                },
            ),
            None => None,
        }
    }
}

/// Saving then loading gives back the same settings: a record written for
/// some settings reads back as exactly those settings.
pub proof fn lemma_document_round_trip(s: Settings, doc: SettingsDocument)
    requires
        documents(doc, s),
    ensures
        settings_of_document(doc) == Some(s),
{
    lemma_label_names_button(s.click_type);
}

} // verus!
