//! The diagnostics subsystem: typed warning and error values with an
//! optional source position, their plain-text rendering, and the aggregate
//! error query that gates every later stage of the pipeline.

use vstd::prelude::*;
use vstd::string::*;

verus! {

/// Anything that can be logged: an advisory warning or a blocking error.
#[derive(Clone, PartialEq, Eq, Debug)]
pub enum LogType {
    Warning(WarningType),
    Error(ErrorType),
}

/// Any possible warning.
#[derive(Clone, PartialEq, Eq, Debug)]
pub enum WarningType {
    /// A numeric flag value was silently rounded down to a multiple of the payload.
    CLIArgRoundedDownU16(String, u16),
    /// The chosen target word width exceeds the host machine's.
    CLITargetLargerThanMachine(usize),
}

/// Any possible error, tagged by the phase that produces it.
#[derive(Clone, PartialEq, Eq, Debug)]
pub enum ErrorType {
    /// Sentinel for an unrecoverable failure; renders a fixed message.
    FatalError,

    CLIMultipleFiles,
    CLICantReadArgs,
    CLINoArgs,
    CLIRequiresArg(String),
    CLIRequiresNumArg(String),
    CLIRequiresNumArgLessThanU16(String, u16),
    CLIRequiresNumArgAtLeastU16(String, u16),
    CLIRequiresBoolArg(String),
    CLIUnrecognizedArg(String),
    CLICantOpenFile(String),
    CLINoFile,
    CLIFileToBig(usize),

    UnrecognizedToken(String),
    UnrepresentableIntegerLiteral(String),
    InvalidArgsForOperator(String, Vec<String>),

    ExpectedEOF,
    UnexpectedEOF,
    UnexpectedToken,
    ExpectedExpressionInParens,
    ExpectedCloseParen,
    UnnegatedMinimumIntegerLiteral,

    ExcessiveBytecode,

    CantCompile,

    CompiledForDifferentTarget(usize),
    DivideByZero,
}

/// One diagnostic: its kind and, when known, the 1-based source position it
/// refers to. A `Log` is an immutable value, never mutated after creation.
#[derive(Clone, PartialEq, Eq, Debug)]
pub struct Log {
    pub log_type: LogType,
    pub line_and_col: Option<(usize, usize)>,
}

/// The character of a single decimal digit.
pub open spec fn dec_digit(d: nat) -> char {
    if d == 0 {
        '0'
    } else if d == 1 {
        '1'
    } else if d == 2 {
        '2'
    } else if d == 3 {
        '3'
    } else if d == 4 {
        '4'
    } else if d == 5 {
        '5'
    } else if d == 6 {
        '6'
    } else if d == 7 {
        '7'
    } else if d == 8 {
        '8'
    } else {
        '9'
    }
}

/// The decimal rendering of a number, most significant digit first, with no
/// leading zeroes (a single `'0'` for zero).
pub open spec fn dec_str(n: nat) -> Seq<char>
    decreases n,
{
    if n < 10 {
        seq![dec_digit(n)]
    } else {
        dec_str(n / 10) + seq![dec_digit(n % 10)]
    }
}

/// The views of a sequence of strings.
pub open spec fn string_views(v: Seq<String>) -> Seq<Seq<char>> {
    v.map_values(|s: String| s@)
}

/// `", A, B, …"`: every item of the sequence, each preceded by a comma and
/// a space.
pub open spec fn comma_prefixed(items: Seq<Seq<char>>) -> Seq<char>
    decreases items.len(),
{
    if items.len() == 0 {
        Seq::empty()
    } else {
        comma_prefixed(items.drop_last()) + ", "@ + items.last()
    }
}

/// The humanized join of a list: nothing for no items, the item alone for
/// one, `"A and B"` for two, and `"A, B, …, and Z"` for three or more.
pub open spec fn humanized_list(items: Seq<Seq<char>>) -> Seq<char> {
    if items.len() == 0 {
        Seq::empty()
    } else if items.len() == 1 {
        items[0]
    } else if items.len() == 2 {
        items[0] + " and "@ + items[1]
    } else {
        items[0] + comma_prefixed(items.subrange(1, items.len() - 1)) + ", and "@ + items.last()
    }
}

/// The severity label a diagnostic is rendered with.
pub open spec fn severity_label(t: LogType) -> Seq<char> {
    match t {
        LogType::Warning(_) => "warning"@,
        LogType::Error(_) => "error"@,
    }
}

/// The message text of a warning.
pub open spec fn warning_message(w: WarningType) -> Seq<char> {
    match w {
        WarningType::CLIArgRoundedDownU16(arg, value) => "argument of \""@ + arg@
            + "\" will be rounded down to the nearest multiple of "@ + dec_str(value as nat)
            + "."@,
        WarningType::CLITargetLargerThanMachine(ptr_size) => {
            "warning: this program is being compiled for a "@ + dec_str(ptr_size as nat)
                + "-bit machine, while this is only a "@ + dec_str(usize::BITS as nat)
                + "-bit machine."@
        },
    }
}

/// The message text of an error. The fatal-error sentinel carries no
/// message of its own: it is rendered as a fixed literal by [`rendered`].
pub open spec fn error_message(e: ErrorType) -> Seq<char> {
    match e {
        ErrorType::FatalError => Seq::empty(),
        ErrorType::CLIMultipleFiles => "command line contains multiple files."@,
        ErrorType::CLICantReadArgs => "could not read command line arguments."@,
        ErrorType::CLINoArgs => "no command line arguments."@,
        ErrorType::CLIRequiresArg(arg) => "compiler flag \""@ + arg@
            + "\" requires an argument."@,
        ErrorType::CLIRequiresNumArg(arg) => "compiler flag \""@ + arg@
            + "\" requires a numerical argument."@,
        ErrorType::CLIRequiresNumArgLessThanU16(arg, bound) => "compiler flag \""@ + arg@
            + "\" requires an argument less than "@ + dec_str(bound as nat) + "."@,
        ErrorType::CLIRequiresNumArgAtLeastU16(arg, bound) => "compiler flag \""@ + arg@
            + "\" requires an argument that's at least "@ + dec_str(bound as nat) + "."@,
        ErrorType::CLIRequiresBoolArg(arg) => "compiler flag \""@ + arg@
            + "\" requires a boolean argument."@,
        ErrorType::CLIUnrecognizedArg(arg) => "unrecognized argument \""@ + arg@ + "\"."@,
        ErrorType::CLICantOpenFile(path) => "could not open file \""@ + path@ + "\"."@,
        ErrorType::CLINoFile => "no source file entered."@,
        ErrorType::CLIFileToBig(ptr_size) => "the file is too big to compile for a "@ + dec_str(
            ptr_size as nat,
        ) + "-bit machine."@,
        ErrorType::UnrecognizedToken(token) => "unrecognized token \""@ + token@ + "\"."@,
        ErrorType::UnrepresentableIntegerLiteral(token) => "int literal \""@ + token@
            + "\" must be at most 2147483648."@,
        ErrorType::InvalidArgsForOperator(op, types) => "the operator \""@ + op@
            + "\" has no definition over the types "@ + humanized_list(string_views(types@)),
        ErrorType::ExpectedEOF => "expected end of file."@,
        ErrorType::UnexpectedEOF => "unexpected end of file."@,
        ErrorType::UnexpectedToken => "unexpected token."@,
        ErrorType::ExpectedExpressionInParens => "expected expression within parentheses."@,
        ErrorType::ExpectedCloseParen => "expected ')' following '('."@,
        ErrorType::UnnegatedMinimumIntegerLiteral => {
            "the int literal 2147483648 must be preceded by a unary '-' operator."@
        },
        ErrorType::ExcessiveBytecode => "could not compile as bytecode was too large."@,
        ErrorType::CantCompile => "could not compile due to errors."@,
        ErrorType::CompiledForDifferentTarget(ptr_size) => {
            "this program was compiled for a "@ + dec_str(ptr_size as nat)
                + "-bit machine, while this is only a "@ + dec_str(usize::BITS as nat)
                + "-bit machine."@
        },
        ErrorType::DivideByZero => "division by zero."@,
    }
}

/// The kind-specific message text of a diagnostic.
pub open spec fn message_text(t: LogType) -> Seq<char> {
    match t {
        LogType::Warning(w) => warning_message(w),
        LogType::Error(e) => error_message(e),
    }
}

/// The `" (line L:C)"` suffix of the severity label, empty when the
/// diagnostic carries no position.
pub open spec fn position_text(p: Option<(usize, usize)>) -> Seq<char> {
    match p {
        None => Seq::empty(),
        Some((line, col)) => " (line "@ + dec_str(line as nat) + ":"@ + dec_str(col as nat)
            + ")"@,
    }
}

/// The complete plain-text rendering of a diagnostic: severity label,
/// optional position, and message — or the fixed sentinel text for a fatal
/// error, whatever its position.
pub open spec fn rendered(log: Log) -> Seq<char> {
    if log.log_type matches LogType::Error(ErrorType::FatalError) {
        "fatal error; program terminated"@
    } else {
        severity_label(log.log_type) + position_text(log.line_and_col) + ": "@ + message_text(
            log.log_type,
        )
    }
}

fn append_digit(s: &mut String, d: u64)
    requires
        d < 10,
    ensures
        final(s)@ == old(s)@ + seq![dec_digit(d as nat)],
{
    if d == 0 {
        s.append("0");
        proof {
            reveal_strlit("0");
            assert(s@ =~= old(s)@ + seq![dec_digit(d as nat)]);
        }
    } else if d == 1 {
        s.append("1");
        proof {
            reveal_strlit("1");
            assert(s@ =~= old(s)@ + seq![dec_digit(d as nat)]);
        }
    } else if d == 2 {
        s.append("2");
        proof {
            reveal_strlit("2");
            assert(s@ =~= old(s)@ + seq![dec_digit(d as nat)]);
        }
    } else if d == 3 {
        s.append("3");
        proof {
            reveal_strlit("3");
            assert(s@ =~= old(s)@ + seq![dec_digit(d as nat)]);
        }
    } else if d == 4 {
        s.append("4");
        proof {
            reveal_strlit("4");
            assert(s@ =~= old(s)@ + seq![dec_digit(d as nat)]);
        }
    } else if d == 5 {
        s.append("5");
        proof {
            reveal_strlit("5");
            assert(s@ =~= old(s)@ + seq![dec_digit(d as nat)]);
        }
    } else if d == 6 {
        s.append("6");
        proof {
            reveal_strlit("6");
            assert(s@ =~= old(s)@ + seq![dec_digit(d as nat)]);
        }
    } else if d == 7 {
        s.append("7");
        proof {
            reveal_strlit("7");
            assert(s@ =~= old(s)@ + seq![dec_digit(d as nat)]);
        }
    } else if d == 8 {
        s.append("8");
        proof {
            reveal_strlit("8");
            assert(s@ =~= old(s)@ + seq![dec_digit(d as nat)]);
        }
    } else {
        s.append("9");
        proof {
            reveal_strlit("9");
            assert(s@ =~= old(s)@ + seq![dec_digit(d as nat)]);
        }
    }
}

/// The decimal rendering of a number.
fn u64_to_string(n: u64) -> (r: String)
    ensures
        r@ == dec_str(n as nat),
    decreases n,
{
    if n < 10 {
        let mut r = String::new();
        append_digit(&mut r, n);
        proof {
            assert(r@ =~= dec_str(n as nat));
        }
        r
    } else {
        let mut r = u64_to_string(n / 10);
        append_digit(&mut r, n % 10);
        r
    }
}

fn append_u64(s: &mut String, n: u64)
    ensures
        final(s)@ == old(s)@ + dec_str(n as nat),
{
    let digits = u64_to_string(n);
    s.append(digits.as_str());
}

/// Whether a list of diagnostics contains an error.
pub open spec fn has_error(logs: Seq<Log>) -> bool {
    exists|i: int| 0 <= i < logs.len() && (#[trigger] logs[i].log_type) is Error
}

/// Returns whether or not a list of logs contains an error. This query is
/// the sole gate deciding whether the compiler (or any later stage) runs.
pub fn is_error(logs: &Vec<Log>) -> (r: bool)
    ensures
        r == has_error(logs@),
{
    let mut i: usize = 0;
    while i < logs.len()
        invariant
            0 <= i <= logs.len(),
            forall|j: int| 0 <= j < i ==> !((#[trigger] logs@[j].log_type) is Error),
        decreases logs.len() - i,
    {
        if let LogType::Error(_) = logs[i].log_type {
            return true;
        }
        i = i + 1;
    }
    false
}

/// Formats a vector of strings into a list with commas and "and": `None`
/// for no items, otherwise the humanized join of the items.
pub fn format_vec_string(vec: Vec<String>) -> (r: Option<String>)
    ensures
        vec@.len() == 0 <==> r is None,
        r matches Some(s) ==> s@ == humanized_list(string_views(vec@)),
{
    let ghost views = string_views(vec@);
    if vec.len() == 0 {
        None
    } else if vec.len() == 1 {
        Some(vec[0].clone())
    } else if vec.len() == 2 {
        let mut value: String = vec[0].clone();
        value.append(" and ");
        value.append(vec[1].as_str());
        proof {
            assert(value@ =~= humanized_list(views));
        }
        Some(value)
    } else {
        let mut value: String = vec[0].clone();
        proof {
            assert(views.subrange(1, 1) =~= Seq::<Seq<char>>::empty());
            assert(value@ =~= views[0] + comma_prefixed(views.subrange(1, 1)));
        }
        let mut i: usize = 1;
        while i < vec.len() - 1
            invariant
                vec.len() >= 3,
                1 <= i <= vec.len() - 1,
                views == string_views(vec@),
                value@ == views[0] + comma_prefixed(views.subrange(1, i as int)),
            decreases vec.len() - i,
        {
            value.append(", ");
            value.append(vec[i].as_str());
            proof {
                assert(views.subrange(1, i + 1 as int).drop_last() =~= views.subrange(
                    1,
                    i as int,
                ));
                assert(views.subrange(1, i + 1 as int).last() == views[i as int]);
                assert(value@ =~= views[0] + comma_prefixed(views.subrange(1, i + 1 as int)));
            }
            i = i + 1;
        }
        value.append(", and ");
        value.append(vec[vec.len() - 1].as_str());
        proof {
            assert(value@ =~= humanized_list(views));
        }
        Some(value)
    }
}

impl Log {
    /// The kind-specific message text of this diagnostic.
    pub fn message_string(&self) -> (r: String)
        ensures
            r@ == message_text(self.log_type),
    {
        let mut m = String::new();
        match &self.log_type {
            LogType::Warning(warning_type) => match warning_type {
                WarningType::CLIArgRoundedDownU16(arg, value) => {
                    m.append("argument of \"");
                    m.append(arg.as_str());
                    m.append("\" will be rounded down to the nearest multiple of ");
                    append_u64(&mut m, *value as u64);
                    m.append(".");
                },
                WarningType::CLITargetLargerThanMachine(ptr_size) => {
                    m.append("warning: this program is being compiled for a ");
                    append_u64(&mut m, *ptr_size as u64);
                    m.append("-bit machine, while this is only a ");
                    append_u64(&mut m, usize::BITS as u64);
                    m.append("-bit machine.");
                },
            },
            LogType::Error(error_type) => match error_type {
                ErrorType::FatalError => {},
                ErrorType::CLIMultipleFiles => {
                    m.append("command line contains multiple files.");
                },
                ErrorType::CLICantReadArgs => {
                    m.append("could not read command line arguments.");
                },
                ErrorType::CLINoArgs => {
                    m.append("no command line arguments.");
                },
                ErrorType::CLIRequiresArg(arg) => {
                    m.append("compiler flag \"");
                    m.append(arg.as_str());
                    m.append("\" requires an argument.");
                },
                ErrorType::CLIRequiresNumArg(arg) => {
                    m.append("compiler flag \"");
                    m.append(arg.as_str());
                    m.append("\" requires a numerical argument.");
                },
                ErrorType::CLIRequiresNumArgLessThanU16(arg, bound) => {
                    m.append("compiler flag \"");
                    m.append(arg.as_str());
                    m.append("\" requires an argument less than ");
                    append_u64(&mut m, *bound as u64);
                    m.append(".");
                },
                ErrorType::CLIRequiresNumArgAtLeastU16(arg, bound) => {
                    m.append("compiler flag \"");
                    m.append(arg.as_str());
                    m.append("\" requires an argument that's at least ");
                    append_u64(&mut m, *bound as u64);
                    m.append(".");
                },
                ErrorType::CLIRequiresBoolArg(arg) => {
                    m.append("compiler flag \"");
                    m.append(arg.as_str());
                    m.append("\" requires a boolean argument.");
                },
                ErrorType::CLIUnrecognizedArg(arg) => {
                    m.append("unrecognized argument \"");
                    m.append(arg.as_str());
                    m.append("\".");
                },
                ErrorType::CLICantOpenFile(path) => {
                    m.append("could not open file \"");
                    m.append(path.as_str());
                    m.append("\".");
                },
                ErrorType::CLINoFile => {
                    m.append("no source file entered.");
                },
                ErrorType::CLIFileToBig(ptr_size) => {
                    m.append("the file is too big to compile for a ");
                    append_u64(&mut m, *ptr_size as u64);
                    m.append("-bit machine.");
                },
                ErrorType::UnrecognizedToken(token) => {
                    m.append("unrecognized token \"");
                    m.append(token.as_str());
                    m.append("\".");
                },
                ErrorType::UnrepresentableIntegerLiteral(token) => {
                    m.append("int literal \"");
                    m.append(token.as_str());
                    m.append("\" must be at most 2147483648.");
                },
                ErrorType::InvalidArgsForOperator(op, types) => {
                    m.append("the operator \"");
                    m.append(op.as_str());
                    m.append("\" has no definition over the types ");
                    let types_list = types.clone();
                    proof {
                        assert forall|j: int| 0 <= j < types@.len() implies types_list@[j]
                            == types@[j] by {
                            assert(cloned::<String>(types@[j], types_list@[j]));
                        }
                        assert(types_list@ =~= types@);
                    }
                    match format_vec_string(types_list) {
                        Some(joined) => {
                            m.append(joined.as_str());
                        },
                        None => {
                            proof {
                                assert(string_views(types@) =~= Seq::<Seq<char>>::empty());
                                assert(m@ =~= m@ + humanized_list(string_views(types@)));
                            }
                        },
                    }
                },
                ErrorType::ExpectedEOF => {
                    m.append("expected end of file.");
                },
                ErrorType::UnexpectedEOF => {
                    m.append("unexpected end of file.");
                },
                ErrorType::UnexpectedToken => {
                    m.append("unexpected token.");
                },
                ErrorType::ExpectedExpressionInParens => {
                    m.append("expected expression within parentheses.");
                },
                ErrorType::ExpectedCloseParen => {
                    m.append("expected ')' following '('.");
                },
                ErrorType::UnnegatedMinimumIntegerLiteral => {
                    m.append("the int literal 2147483648 must be preceded by a unary '-' operator.");
                },
                ErrorType::ExcessiveBytecode => {
                    m.append("could not compile as bytecode was too large.");
                },
                ErrorType::CantCompile => {
                    m.append("could not compile due to errors.");
                },
                ErrorType::CompiledForDifferentTarget(ptr_size) => {
                    m.append("this program was compiled for a ");
                    append_u64(&mut m, *ptr_size as u64);
                    m.append("-bit machine, while this is only a ");
                    append_u64(&mut m, usize::BITS as u64);
                    m.append("-bit machine.");
                },
                ErrorType::DivideByZero => {
                    m.append("division by zero.");
                },
            },
        }
        proof {
            assert(m@ =~= message_text(self.log_type));
        }
        m
    }

    /// The complete plain-text rendering of this diagnostic: severity label,
    /// optional `(line L:C)` position, and message.
    pub fn to_string(&self) -> (r: String)
        ensures
            r@ == rendered(*self),
    {
        let mut output = String::new();
        if let LogType::Error(ErrorType::FatalError) = &self.log_type {
            output.append("fatal error; program terminated");
            proof {
                assert(output@ =~= rendered(*self));
            }
            return output;
        }
        match &self.log_type {
            LogType::Warning(_) => {
                output.append("warning");
            },
            LogType::Error(_) => {
                output.append("error");
            },
        }
        if let Some((line, col)) = self.line_and_col {
            output.append(" (line ");
            append_u64(&mut output, line as u64);
            output.append(":");
            append_u64(&mut output, col as u64);
            output.append(")");
        }
        output.append(": ");
        let message = self.message_string();
        output.append(message.as_str());
        proof {
            assert(output@ =~= rendered(*self));
        }
        output
    }
}

/// Converts all logs into their plain, unstyled text, for deterministic
/// comparison.
pub fn all_to_string(logs: &Vec<Log>) -> (r: Vec<String>)
    ensures
        r@.len() == logs@.len(),
        forall|i: int| 0 <= i < logs@.len() ==> (#[trigger] r@[i])@ == rendered(logs@[i]),
{
    let mut strings: Vec<String> = Vec::new();
    let mut i: usize = 0;
    while i < logs.len()
        invariant
            i <= logs.len(),
            strings@.len() == i,
            forall|j: int| 0 <= j < i ==> (#[trigger] strings@[j])@ == rendered(logs@[j]),
        decreases logs.len() - i,
    {
        strings.push(logs[i].to_string());
        i = i + 1;
    }
    strings
}

} // verus!
