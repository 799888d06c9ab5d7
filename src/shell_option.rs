//! The commands of the line-oriented shell, parsed from one input line.
use vstd::prelude::*;

use crate::text::{digit_value, is_digit, str_equals};

verus! {

/// A command of the shell.
#[derive(Debug, PartialEq, Eq)]
pub enum ShellOption {
    Help,
    Exit,
    Create,
    Read(ReadType),
    /// What to update, and the id of the application.
    Update(UpdateType, i32),
    /// Delete the application with this id.
    Delete(i32),
}

/// Which applications to show.
#[derive(Debug, PartialEq, Eq)]
pub enum ReadType {
    All,
    Pending,
    /// Those that match a search query.
    Search(String),
    /// The one with this id.
    One(i32),
}

/// What an update command changes.
#[derive(Clone, Copy, Debug, PartialEq, Eq, Structural)]
pub enum UpdateType {
    HumanResponse,
    Other,
}

/// The mathematical value of a read command.
pub enum ReadModel {
    All,
    Pending,
    Search(Seq<char>),
    One(i32),
}

/// The mathematical value of a command.
pub enum CommandModel {
    Help,
    Exit,
    Create,
    Read(ReadModel),
    Update(UpdateType, i32),
    Delete(i32),
}

/// Why a line is not a command: a fixed message, or an id that is no
/// integer (the message then quotes it and the reason).
pub enum ParseFailure {
    Message(Seq<char>),
    BadId(Seq<char>),
}

impl View for ReadType {
    type V = ReadModel;

    open spec fn view(&self) -> ReadModel {
        match self {
            ReadType::All => ReadModel::All,
            ReadType::Pending => ReadModel::Pending,
            ReadType::Search(s) => ReadModel::Search(s@),
            ReadType::One(i) => ReadModel::One(*i),
        }
    }
}

impl View for ShellOption {
    type V = CommandModel;

    open spec fn view(&self) -> CommandModel {
        match self {
            ShellOption::Help => CommandModel::Help,
            ShellOption::Exit => CommandModel::Exit,
            ShellOption::Create => CommandModel::Create,
            ShellOption::Read(r) => CommandModel::Read(r@),
            ShellOption::Update(u, i) => CommandModel::Update(*u, *i),
            ShellOption::Delete(i) => CommandModel::Delete(*i),
        }
    }
}

// Integers

/// The length of a leading `+` or `-`.
pub open spec fn sign_len(s: Seq<char>) -> int {
    if s.len() > 0 && (s[0] == '+' || s[0] == '-') {
        1
    } else {
        0
    }
}

pub open spec fn digits_value(s: Seq<char>) -> int
    decreases s.len(),
{
    if s.len() == 0 {
        0
    } else {
        10 * digits_value(s.drop_last()) + digit_value(s.last())
    }
}

/// The value of an optionally signed decimal numeral.
pub open spec fn decimal_value(s: Seq<char>) -> int {
    let v = digits_value(s.subrange(sign_len(s), s.len() as int));
    if sign_len(s) == 1 && s[0] == '-' {
        -v
    } else {
        v
    }
}

/// Whether `s` is an optional sign followed by decimal digits, with a value
/// that fits an `i32`.
pub open spec fn is_i32_text(s: Seq<char>) -> bool {
    &&& s.len() > sign_len(s)
    &&& forall|i: int| sign_len(s) <= i < s.len() ==> #[trigger] is_digit(s[i])
    &&& i32::MIN <= decimal_value(s) <= i32::MAX
}

/// Relies on `str::parse::<i32>` (i32::from_str), which reads an optional
/// `+` or `-` followed by decimal digits and fails on anything else or on a
/// value out of range; the error's text is its `Display`.
#[verifier::external_body]
pub(crate) fn parse_i32(s: &str) -> (r: Result<i32, String>)
    ensures
        r is Ok <==> is_i32_text(s@),
        r is Ok ==> r->Ok_0 as int == decimal_value(s@),
{
    s.parse::<i32>().map_err(|e| e.to_string())
}

// Splitting at the first space

/// The position of the first space at or after `from`, if any.
pub open spec fn find_space(s: Seq<char>, from: int) -> Option<int>
    decreases s.len() - from,
{
    if from >= s.len() || from < 0 {
        None
    } else if s[from] == ' ' {
        Some(from)
    } else {
        find_space(s, from + 1)
    }
}

/// The text before the first space, and after it; the whole text and
/// nothing where there is no space.
pub open spec fn split_words(s: Seq<char>) -> (Seq<char>, Seq<char>) {
    match find_space(s, 0) {
        Some(i) => (s.take(i), s.skip(i + 1)),
        None => (s, Seq::empty()),
    }
}

/// Whether there is a space in `s`.
pub open spec fn has_space(s: Seq<char>) -> bool {
    find_space(s, 0) is Some
}

proof fn lemma_find_space_skip(s: Seq<char>, from: int, to: int)
    requires
        0 <= from <= to <= s.len(),
        forall|k: int| from <= k < to ==> s[k] != ' ',
    ensures
        find_space(s, from) == find_space(s, to),
    decreases to - from,
{
    if from < to {
        lemma_find_space_skip(s, from + 1, to);
    }
}

/// Splits at the first space: `Some` with the text before and after it,
/// `None` where there is no space.
pub(crate) fn split_once_space(s: &str) -> (r: Option<(&str, &str)>)
    ensures
        r is Some <==> has_space(s@),
        r is Some ==> (r->Some_0.0@, r->Some_0.1@) == split_words(s@),
{
    let n = s.unicode_len();
    let mut i: usize = 0;
    while i < n
        invariant
            n == s@.len(),
            i <= n,
            forall|k: int| 0 <= k < i ==> s@[k] != ' ',
        decreases n - i,
    {
        if s.get_char(i) == ' ' {
            proof {
                lemma_find_space_skip(s@, 0, i as int);
            }
            let before = s.substring_char(0, i);
            let after = s.substring_char(i + 1, n);
            proof {
                assert(before@ =~= s@.take(i as int));
                assert(after@ =~= s@.skip(i + 1));
            }
            return Some((before, after));
        }
        i = i + 1;
    }
    proof {
        lemma_find_space_skip(s@, 0, n as int);
    }
    None
}

// Commands

pub open spec fn update_type_spec(s: Seq<char>) -> Result<UpdateType, Seq<char>> {
    if s == "response"@ {
        Ok(UpdateType::HumanResponse)
    } else if s == "other"@ {
        Ok(UpdateType::Other)
    } else if s.len() == 0 {
        Err("No update type given"@)
    } else {
        Err("Invalid update type"@)
    }
}

pub open spec fn read_type_spec(s: Seq<char>) -> Result<ReadModel, ParseFailure> {
    let (word, args) = split_words(s);
    if word == "all"@ || word.len() == 0 {
        Ok(ReadModel::All)
    } else if word == "pending"@ {
        Ok(ReadModel::Pending)
    } else if word == "search"@ {
        if args.len() != 0 {
            Ok(ReadModel::Search(args))
        } else {
            Err(ParseFailure::Message("Search query is required for search"@))
        }
    } else if is_i32_text(word) {
        Ok(ReadModel::One(decimal_value(word) as i32))
    } else {
        Err(ParseFailure::BadId(word))
    }
}

pub open spec fn shell_option_spec(s: Seq<char>) -> Result<CommandModel, ParseFailure> {
    let (word, args) = split_words(s);
    if s.len() == 0 {
        Err(ParseFailure::Message("No command given"@))
    } else if word == "help"@ || word == "h"@ {
        Ok(CommandModel::Help)
    } else if word == "exit"@ || word == "quit"@ {
        Ok(CommandModel::Exit)
    } else if word == "create"@ || word == "new"@ {
        Ok(CommandModel::Create)
    } else if word == "read"@ || word == "search"@ {
        match read_type_spec(if word == "read"@ { args } else { s }) {
            Ok(r) => Ok(CommandModel::Read(r)),
            Err(e) => Err(e),
        }
    } else if word == "update"@ {
        if has_space(args) {
            let (kind, id_text) = split_words(args);
            match update_type_spec(kind) {
                Err(m) => Err(ParseFailure::Message(m)),
                Ok(u) => if is_i32_text(id_text) {
                    Ok(CommandModel::Update(u, decimal_value(id_text) as i32))
                } else {
                    Err(ParseFailure::BadId(id_text))
                },
            }
        } else {
            Err(ParseFailure::Message("Update type and ID are required"@))
        }
    } else if word == "delete"@ {
        if is_i32_text(args) {
            Ok(CommandModel::Delete(decimal_value(args) as i32))
        } else {
            Err(ParseFailure::BadId(args))
        }
    } else {
        Err(ParseFailure::Message("Invalid command"@))
    }
}

/// The text that a refusal of the given kind starts with: the whole
/// message, or the quoted id before the reason that integer parsing gave.
pub open spec fn failure_prefix(f: ParseFailure) -> Seq<char> {
    match f {
        ParseFailure::Message(m) => m,
        ParseFailure::BadId(t) => "Unable to parse id '"@ + t + "'. Error: "@,
    }
}

/// Whether an error message says what the refusal is.
pub open spec fn message_fits(msg: Seq<char>, f: ParseFailure) -> bool {
    match f {
        ParseFailure::Message(m) => msg == m,
        ParseFailure::BadId(_) => msg.len() >= failure_prefix(f).len() && msg.take(
            failure_prefix(f).len() as int,
        ) == failure_prefix(f),
    }
}

/// Reads an id, or says why it is none.
fn parse_id(s: &str) -> (r: Result<i32, String>)
    ensures
        r is Ok <==> is_i32_text(s@),
        r is Ok ==> r->Ok_0 as int == decimal_value(s@),
        r is Err ==> message_fits(r->Err_0@, ParseFailure::BadId(s@)),
{
    match parse_i32(s) {
        Ok(v) => Ok(v),
        Err(reason) => {
            let mut m = String::from_str("Unable to parse id '");
            m.append(s);
            m.append("'. Error: ");
            let ghost prefix = m@;
            m.append(reason.as_str());
            proof {
                assert(prefix == failure_prefix(ParseFailure::BadId(s@)));
                assert(m@.take(prefix.len() as int) =~= prefix);
            }
            Err(m)
        },
    }
}

impl UpdateType {
    /// Reads the kind of an update command.
    pub fn try_from_str(value: &str) -> (r: Result<UpdateType, String>)
        ensures
            r is Ok <==> update_type_spec(value@) is Ok,
            r is Ok ==> r->Ok_0 == update_type_spec(value@)->Ok_0,
            r is Err ==> r->Err_0@ == update_type_spec(value@)->Err_0,
    {
        if str_equals(value, "response") {
            Ok(UpdateType::HumanResponse)
        } else if str_equals(value, "other") {
            Ok(UpdateType::Other)
        } else if value.unicode_len() == 0 {
            Err(String::from_str("No update type given"))
        } else {
            Err(String::from_str("Invalid update type"))
        }
    }
}

impl ReadType {
    /// Reads the arguments of a read command; an empty line reads all.
    pub fn try_from_str(value: &str) -> (r: Result<ReadType, String>)
        ensures
            r is Ok <==> read_type_spec(value@) is Ok,
            r is Ok ==> r->Ok_0@ == read_type_spec(value@)->Ok_0,
            r is Err ==> message_fits(r->Err_0@, read_type_spec(value@)->Err_0),
    {
        let (word, args) = match split_once_space(value) {
            Some(parts) => parts,
            None => (value, ""),
        };
        proof {
            reveal_strlit("");
            assert(""@ =~= Seq::<char>::empty());
        }
        if str_equals(word, "all") || word.unicode_len() == 0 {
            Ok(ReadType::All)
        } else if str_equals(word, "pending") {
            Ok(ReadType::Pending)
        } else if str_equals(word, "search") {
            if args.unicode_len() != 0 {
                Ok(ReadType::Search(String::from_str(args)))
            } else {
                Err(String::from_str("Search query is required for search"))
            }
        } else {
            match parse_id(word) {
                Ok(id) => Ok(ReadType::One(id)),
                Err(m) => Err(m),
            }
        }
    }
}

impl ShellOption {
    /// Reads one line of shell input.
    pub fn try_from_str(value: &str) -> (r: Result<ShellOption, String>)
        ensures
            r is Ok <==> shell_option_spec(value@) is Ok,
            r is Ok ==> r->Ok_0@ == shell_option_spec(value@)->Ok_0,
            r is Err ==> message_fits(r->Err_0@, shell_option_spec(value@)->Err_0),
    {
        if value.unicode_len() == 0 {
            return Err(String::from_str("No command given"));
        }
        let (word, args) = match split_once_space(value) {
            Some(parts) => parts,
            None => (value, ""),
        };
        proof {
            reveal_strlit("");
            assert(""@ =~= Seq::<char>::empty());
        }
        if str_equals(word, "help") || str_equals(word, "h") {
            Ok(ShellOption::Help)
        } else if str_equals(word, "exit") || str_equals(word, "quit") {
            Ok(ShellOption::Exit)
        } else if str_equals(word, "create") || str_equals(word, "new") {
            Ok(ShellOption::Create)
        } else if str_equals(word, "read") {
            match ReadType::try_from_str(args) {
                Ok(r) => Ok(ShellOption::Read(r)),
                Err(m) => Err(m),
            }
        } else if str_equals(word, "search") {
            match ReadType::try_from_str(value) {
                Ok(r) => Ok(ShellOption::Read(r)),
                Err(m) => Err(m),
            }
        } else if str_equals(word, "update") {
            match split_once_space(args) {
                Some((kind, id_text)) => {
                    let u = match UpdateType::try_from_str(kind) {
                        Ok(u) => u,
                        Err(m) => return Err(m),
                    };
                    match parse_id(id_text) {
                        Ok(id) => Ok(ShellOption::Update(u, id)),
                        Err(m) => Err(m),
                    }
                },
                None => Err(String::from_str("Update type and ID are required")),
            }
        } else if str_equals(word, "delete") {
            match parse_id(args) {
                Ok(id) => Ok(ShellOption::Delete(id)),
                Err(m) => Err(m),
            }
        } else {
            Err(String::from_str("Invalid command"))
        }
    }
}

} // verus!
