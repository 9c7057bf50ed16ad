//! Configuration of the engine and the validation rules for user input.

use rand::prelude::IndexedRandom;
use vstd::prelude::*;
use vstd::string::{StrSliceExecFns, StringExecFns};

use crate::text::{decimal, decimal_digits, same_text, string_from_chars};

verus! {

/// How the salary amount is stated.
#[derive(Clone, Copy, Debug, PartialEq, Eq, Structural)]
pub enum SalaryType {
    Monthly,
    Yearly,
}

/// Which amount the menubar shows.
#[derive(Clone, Copy, Debug, PartialEq, Eq, Structural)]
pub enum MenubarDisplayMode {
    /// No amount is shown.
    Hidden,
    Daily,
    Accumulated,
}

/// Colour of the tray icons.
#[derive(Clone, Copy, Debug, PartialEq, Eq, Structural)]
pub enum MenubarIconTheme {
    Light,
    Dark,
}

/// The user's compensation and schedule configuration.
#[derive(Clone, Debug)]
pub struct UserSettings {
    pub salary_type: SalaryType,
    /// Whole currency units per month or per year.
    pub salary_amount: u32,
    /// Day of month of the pay day, 1 to 31.
    pub pay_day: u8,
    /// Weekday codes of the work days, 0 (Sunday) to 6 (Saturday).
    pub work_days: Vec<u8>,
    /// "HH:MM".
    pub work_start_time: String,
    /// "HH:MM"; before the start time the shift ends on the next day, and equal
    /// to it the shift is empty.
    pub work_end_time: String,
    /// The engine stays inert until this is set.
    pub onboarding_completed: bool,
    pub menubar_display_mode: MenubarDisplayMode,
    pub menubar_icon_theme: MenubarIconTheme,
}

impl Default for UserSettings {
    /// Monday to Friday, 09:00 to 18:00, pay day 25, nothing configured yet.
    fn default() -> (r: UserSettings)
        ensures
            r.salary_type == SalaryType::Monthly,
            r.salary_amount == 0,
            r.pay_day == 25,
            r.work_days@ == seq![1u8, 2, 3, 4, 5],
            r.work_start_time@ == "09:00"@,
            r.work_end_time@ == "18:00"@,
            !r.onboarding_completed,
            r.menubar_display_mode == MenubarDisplayMode::Daily,
            r.menubar_icon_theme == MenubarIconTheme::Light,
    {
        let r = UserSettings {
            salary_type: SalaryType::Monthly,
            salary_amount: 0,
            pay_day: 25,
            work_days: vec![1u8, 2, 3, 4, 5],
            work_start_time: String::from_str("09:00"),
            work_end_time: String::from_str("18:00"),
            onboarding_completed: false,
            menubar_display_mode: MenubarDisplayMode::Daily,
            menubar_icon_theme: MenubarIconTheme::Light,
        };
        assert(r.work_days@ =~= seq![1u8, 2, 3, 4, 5]);
        r
    }
}

/// Application preferences that persist between sessions.
#[derive(Clone, Debug)]
pub struct AppPreferences {
    /// "light", "dark" or "system".
    pub theme: String,
    /// Global shortcut of the quick pane; `None` keeps the default one.
    pub quick_pane_shortcut: Option<String>,
    /// Preferred language; `None` follows the system locale.
    pub language: Option<String>,
}

impl Default for AppPreferences {
    /// The system theme, the default shortcut and the system language.
    fn default() -> (r: AppPreferences)
        ensures
            r.theme@ == "system"@,
            r.quick_pane_shortcut is None,
            r.language is None,
    {
        AppPreferences {
            theme: String::from_str("system"),
            quick_pane_shortcut: None,
            language: None,
        }
    }
}

/// Failures of the recovery-file operations.
#[derive(Clone, Debug)]
pub enum RecoveryError {
    /// The file does not exist (an expected case, not a failure).
    FileNotFound,
    /// The file name was refused.
    ValidationError { message: String },
    /// The data exceeds the size limit.
    DataTooLarge { max_bytes: u32 },
    /// Reading or writing failed.
    IoError { message: String },
    /// The JSON could not be read or written.
    ParseError { message: String },
}

/// Human-readable text of a recovery error.
pub open spec fn recovery_error_text(e: RecoveryError) -> Seq<char> {
    match e {
        RecoveryError::FileNotFound => "File not found"@,
        RecoveryError::ValidationError { message } => "Validation error: "@ + message@,
        RecoveryError::DataTooLarge { max_bytes } => "Data too large (max "@ + decimal(
            max_bytes as nat,
        ) + " bytes)"@,
        RecoveryError::IoError { message } => "IO error: "@ + message@,
        RecoveryError::ParseError { message } => "Parse error: "@ + message@,
    }
}

/// `prefix` followed by `rest`.
fn joined(prefix: &str, rest: &str) -> (r: String)
    ensures
        r@ == prefix@ + rest@,
{
    let mut r = String::from_str(prefix);
    r.append(rest);
    r
}

/// Decimal text of `n`.
fn decimal_text(n: u128) -> (r: String)
    ensures
        r@ == decimal(n as nat),
{
    string_from_chars(&decimal_digits(n))
}

impl RecoveryError {
    /// Human-readable text of the error (see [`recovery_error_text`]).
    pub fn display_text(&self) -> (r: String)
        ensures
            r@ == recovery_error_text(*self),
    {
        match self {
            RecoveryError::FileNotFound => String::from_str("File not found"),
            RecoveryError::ValidationError { message } => joined(
                "Validation error: ",
                message.as_str(),
            ),
            RecoveryError::DataTooLarge { max_bytes } => {
                let mut r = String::from_str("Data too large (max ");
                let n = decimal_text(*max_bytes as u128);
                r.append(n.as_str());
                r.append(" bytes)");
                r
            },
            RecoveryError::IoError { message } => joined("IO error: ", message.as_str()),
            RecoveryError::ParseError { message } => joined("Parse error: ", message.as_str()),
        }
    }
}

/// The shape of a safe file name: letters, digits, '_' and '-', then at most
/// one extension of letters and digits.
pub const FILENAME_PATTERN: &'static str = "^[a-zA-Z0-9_-]+(\\.[a-zA-Z0-9]+)?$";

/// Longest file name accepted, in characters.
pub const MAX_FILENAME_CHARS: usize = 100;

/// Whether `haystack` matches the regular expression `pattern`.
pub uninterp spec fn regex_match(pattern: Seq<char>, haystack: Seq<char>) -> bool;

pub open spec fn is_ascii_alnum(c: char) -> bool {
    ('a' <= c && c <= 'z') || ('A' <= c && c <= 'Z') || ('0' <= c && c <= '9')
}

pub open spec fn is_stem_char(c: char) -> bool {
    is_ascii_alnum(c) || c == '_' || c == '-'
}

/// The texts that [`FILENAME_PATTERN`] matches: a non-empty stem of ASCII
/// letters, digits, '_' and '-', optionally followed by '.' and a non-empty
/// extension of ASCII letters and digits, and nothing else.
pub open spec fn safe_filename_shape(s: Seq<char>) -> bool {
    (s.len() > 0 && forall|j: int| 0 <= j < s.len() ==> is_stem_char(#[trigger] s[j])) || exists|
        i: int,
    |
        0 < i < s.len() - 1 && s[i] == '.' && (forall|j: int|
            0 <= j < i ==> is_stem_char(#[trigger] s[j])) && (forall|j: int|
            i < j < s.len() ==> is_ascii_alnum(#[trigger] s[j]))
}

/// Relies on regex's `Regex::new` and `Regex::is_match`: whether `haystack`
/// matches `pattern`; a pattern that does not compile matches nothing. For
/// [`FILENAME_PATTERN`] (anchored by `^` and `$`, which without the multi-line
/// flag match only at the ends of the text, with no case-insensitive flag) the
/// matching texts are [`safe_filename_shape`].
#[verifier::external_body]
fn regex_is_match(pattern: &str, haystack: &str) -> (r: bool)
    ensures
        r == regex_match(pattern@, haystack@),
        pattern@ == FILENAME_PATTERN@ ==> (r <==> safe_filename_shape(haystack@)),
{
    match regex::Regex::new(pattern) {
        Ok(re) => re.is_match(haystack),
        Err(_) => false,
    }
}

/// Why a file name is refused, given whether it matches [`FILENAME_PATTERN`];
/// `None` when it is accepted.
pub open spec fn filename_error(name: Seq<char>, matches_pattern: bool) -> Option<Seq<char>> {
    if name.len() == 0 {
        Some("Filename cannot be empty"@)
    } else if name.len() > MAX_FILENAME_CHARS {
        Some("Filename too long (max 100 characters)"@)
    } else if !matches_pattern {
        Some(
            "Invalid filename: only alphanumeric characters, dashes, underscores, and dots allowed"@,
        )
    } else {
        None
    }
}

/// Whether `r` is `Ok` exactly when `error` is `None`, and else carries its text.
pub open spec fn reports(r: Result<(), String>, error: Option<Seq<char>>) -> bool {
    match error {
        Some(m) => r is Err && r->Err_0@ == m,
        None => r is Ok,
    }
}

/// Checks a file name, given whether it matches [`FILENAME_PATTERN`].
pub fn check_filename(filename: &str, matches_pattern: bool) -> (r: Result<(), String>)
    ensures
        reports(r, filename_error(filename@, matches_pattern)),
{
    let n = filename.unicode_len();
    if n == 0 {
        return Err(String::from_str("Filename cannot be empty"));
    }
    if n > MAX_FILENAME_CHARS {
        return Err(String::from_str("Filename too long (max 100 characters)"));
    }
    if !matches_pattern {
        return Err(
            String::from_str(
                "Invalid filename: only alphanumeric characters, dashes, underscores, and dots allowed",
            ),
        );
    }
    Ok(())
}

/// Validates a file name for safe file system operations: not empty, at most
/// 100 characters, and of the shape [`FILENAME_PATTERN`].
pub fn validate_filename(filename: &str) -> (r: Result<(), String>)
    ensures
        reports(r, filename_error(filename@, regex_match(FILENAME_PATTERN@, filename@))),
        reports(r, filename_error(filename@, safe_filename_shape(filename@))),
{
    let matches_pattern = regex_is_match(FILENAME_PATTERN, filename);
    check_filename(filename, matches_pattern)
}

/// Validates the length of a text input, counted in characters.
pub fn validate_string_input(input: &str, max_len: usize, field_name: &str) -> (r: Result<
    (),
    String,
>)
    ensures
        reports(
            r,
            if input@.len() > max_len {
                Some(
                    field_name@ + " too long (max "@ + decimal(max_len as nat) + " characters)"@,
                )
            } else {
                None
            },
        ),
{
    if input.unicode_len() > max_len {
        let mut r = String::from_str(field_name);
        r.append(" too long (max ");
        let n = decimal_text(max_len as u128);
        r.append(n.as_str());
        r.append(" characters)");
        return Err(r);
    }
    Ok(())
}

/// Validates a theme: "light", "dark" or "system".
pub fn validate_theme(theme: &str) -> (r: Result<(), String>)
    ensures
        reports(
            r,
            if theme@ == "light"@ || theme@ == "dark"@ || theme@ == "system"@ {
                None
            } else {
                Some("Invalid theme: must be 'light', 'dark', or 'system'"@)
            },
        ),
{
    if same_text(theme, "light") || same_text(theme, "dark") || same_text(theme, "system") {
        Ok(())
    } else {
        Err(String::from_str("Invalid theme: must be 'light', 'dark', or 'system'"))
    }
}

/// Validates a salary amount: it must be positive.
pub fn validate_salary(salary: u64) -> (r: Result<(), String>)
    ensures
        reports(
            r,
            if salary == 0 {
                Some("월 실수령액은 0보다 커야 합니다"@)
            } else {
                None
            },
        ),
{
    if salary == 0 {
        return Err(String::from_str("월 실수령액은 0보다 커야 합니다"));
    }
    Ok(())
}

/// Validates a pay day: 1 to 31.
pub fn validate_pay_day(day: u8) -> (r: Result<(), String>)
    ensures
        reports(
            r,
            if 1 <= day <= 31 {
                None
            } else {
                Some("월급날은 1~31 사이여야 합니다"@)
            },
        ),
{
    if day < 1 || day > 31 {
        return Err(String::from_str("월급날은 1~31 사이여야 합니다"));
    }
    Ok(())
}

/// Adjectives of generated nicknames.
pub open spec fn nickname_adjectives() -> Seq<Seq<char>> {
    seq!["성실한"@, "부지런한"@, "열정적인"@, "꼼꼼한"@, "유능한"@, "프로"@]
}

/// Characters of generated nicknames.
pub open spec fn nickname_characters() -> Seq<Seq<char>> {
    seq!["뚱이"@, "징징이"@, "다람이"@, "핑핑이"@, "보노보노"@, "포차코"@]
}

/// Names of generated workplaces.
pub open spec fn company_names() -> Seq<Seq<char>> {
    seq![
        "집게리아"@,
        "버거왕국"@,
        "초코파이공장"@,
        "별다방"@,
        "감자튀김연구소"@,
        "햄버거학교"@,
        "피자왕국"@,
        "치킨나라"@,
    ]
}

/// Whether `t` is the text of one of `items`.
pub open spec fn is_one_of(t: Seq<char>, items: Seq<&str>) -> bool {
    exists|i: int| 0 <= i < items.len() && items[i]@ == t
}

/// Relies on rand's `IndexedRandom::choose` with the thread-local generator
/// `rand::rng()`: for a non-empty slice, one of its elements.
#[verifier::external_body]
fn choose_text(items: &[&str]) -> (r: String)
    requires
        items@.len() > 0,
    ensures
        is_one_of(r@, items@),
{
    items.choose(&mut rand::rng()).copied().unwrap_or_default().to_string()
}

/// A nickname made of an adjective and a character: "{adjective} {character}".
pub fn compose_nickname(adjective: &str, character: &str) -> (r: String)
    ensures
        r@ == adjective@ + seq![' '] + character@,
{
    let mut r = String::from_str(adjective);
    r.append(" ");
    r.append(character);
    proof {
        reveal_strlit(" ");
    }
    assert(r@ =~= adjective@ + seq![' '] + character@);
    r
}

/// A random nickname: one of [`nickname_adjectives`], a space, one of
/// [`nickname_characters`].
pub fn generate_random_nickname() -> (r: String)
    ensures
        exists|i: int, j: int|
            0 <= i < nickname_adjectives().len() && 0 <= j < nickname_characters().len() && r@
                == nickname_adjectives()[i] + seq![' '] + nickname_characters()[j],
{
    let adjectives = vec!["성실한", "부지런한", "열정적인", "꼼꼼한", "유능한", "프로"];
    let characters = vec!["뚱이", "징징이", "다람이", "핑핑이", "보노보노", "포차코"];
    let adjective = choose_text(adjectives.as_slice());
    let character = choose_text(characters.as_slice());
    let r = compose_nickname(adjective.as_str(), character.as_str());
    proof {
        let i = choose|i: int| 0 <= i < adjectives@.len() && adjectives@[i]@ == adjective@;
        let j = choose|j: int| 0 <= j < characters@.len() && characters@[j]@ == character@;
        assert(adjectives@[i]@ == nickname_adjectives()[i]);
        assert(characters@[j]@ == nickname_characters()[j]);
    }
    r
}

/// A random workplace name, one of [`company_names`].
pub fn generate_random_company() -> (r: String)
    ensures
        exists|i: int| 0 <= i < company_names().len() && r@ == company_names()[i],
{
    let companies = vec![
        "집게리아",
        "버거왕국",
        "초코파이공장",
        "별다방",
        "감자튀김연구소",
        "햄버거학교",
        "피자왕국",
        "치킨나라",
    ];
    let company = choose_text(companies.as_slice());
    proof {
        let i = choose|i: int| 0 <= i < companies@.len() && companies@[i]@ == company@;
        assert(companies@[i]@ == company_names()[i]);
    }
    company
}

} // verus!
