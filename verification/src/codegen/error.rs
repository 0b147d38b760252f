//! Errors of the code-generation stages.
//!
//! Recoverable errors abort only the actor or method under compilation;
//! fatal ones (internal faults, initialization, backend-level emission
//! and validation failures) abort the whole run.

use vstd::prelude::*;
use vstd::string::StringExecFns;

verus! {

/// An error of a code-generation stage.
#[derive(Debug)]
pub enum CodeGenError {
    TypeConversion(String),
    ExpressionCompilation(String),
    MethodCompilation(String),
    Emission(String),
    Validation(String),
    Initialization(String),
    UndefinedVariable(String),
    InvalidOperation(String),
    OwnershipViolation(String),
    AsyncError(String),
    MemoryError(String),
    Internal(String),
}

/// Spec-level mirror of a code-generation failure: which error kind a
/// stage produces, with the exact diagnostic text.
pub enum CodeGenIssue {
    TypeConversionIssue(Seq<char>),
    ExpressionIssue(Seq<char>),
    MethodIssue(Seq<char>),
    EmissionIssue(Seq<char>),
    ValidationIssue(Seq<char>),
    InitializationIssue(Seq<char>),
    UndefinedVarIssue(Seq<char>),
    OperationIssue(Seq<char>),
    OwnershipIssue(Seq<char>),
    AsyncIssue(Seq<char>),
    MemoryIssue(Seq<char>),
    InternalIssue(Seq<char>),
}

/// Whether the executable error `e` carries exactly the failure `i`.
pub open spec fn cg_matches(e: CodeGenError, i: CodeGenIssue) -> bool {
    match (e, i) {
        (CodeGenError::TypeConversion(m), CodeGenIssue::TypeConversionIssue(s)) => m@ == s,
        (CodeGenError::ExpressionCompilation(m), CodeGenIssue::ExpressionIssue(s)) => m@ == s,
        (CodeGenError::MethodCompilation(m), CodeGenIssue::MethodIssue(s)) => m@ == s,
        (CodeGenError::Emission(m), CodeGenIssue::EmissionIssue(s)) => m@ == s,
        (CodeGenError::Validation(m), CodeGenIssue::ValidationIssue(s)) => m@ == s,
        (CodeGenError::Initialization(m), CodeGenIssue::InitializationIssue(s)) => m@ == s,
        (CodeGenError::UndefinedVariable(m), CodeGenIssue::UndefinedVarIssue(s)) => m@ == s,
        (CodeGenError::InvalidOperation(m), CodeGenIssue::OperationIssue(s)) => m@ == s,
        (CodeGenError::OwnershipViolation(m), CodeGenIssue::OwnershipIssue(s)) => m@ == s,
        (CodeGenError::AsyncError(m), CodeGenIssue::AsyncIssue(s)) => m@ == s,
        (CodeGenError::MemoryError(m), CodeGenIssue::MemoryIssue(s)) => m@ == s,
        (CodeGenError::Internal(m), CodeGenIssue::InternalIssue(s)) => m@ == s,
        _ => false,
    }
}

/// The diagnostic text an error carries.
pub open spec fn error_message(e: CodeGenError) -> Seq<char> {
    match e {
        CodeGenError::TypeConversion(m) => m@,
        CodeGenError::ExpressionCompilation(m) => m@,
        CodeGenError::MethodCompilation(m) => m@,
        CodeGenError::Emission(m) => m@,
        CodeGenError::Validation(m) => m@,
        CodeGenError::Initialization(m) => m@,
        CodeGenError::UndefinedVariable(m) => m@,
        CodeGenError::InvalidOperation(m) => m@,
        CodeGenError::OwnershipViolation(m) => m@,
        CodeGenError::AsyncError(m) => m@,
        CodeGenError::MemoryError(m) => m@,
        CodeGenError::Internal(m) => m@,
    }
}

/// The issue carried by an issue value, prefixed with more context.
pub open spec fn prefixed_issue(i: CodeGenIssue, prefix: Seq<char>) -> CodeGenIssue {
    match i {
        CodeGenIssue::TypeConversionIssue(s) => CodeGenIssue::TypeConversionIssue(prefix + s),
        CodeGenIssue::ExpressionIssue(s) => CodeGenIssue::ExpressionIssue(prefix + s),
        CodeGenIssue::MethodIssue(s) => CodeGenIssue::MethodIssue(prefix + s),
        CodeGenIssue::EmissionIssue(s) => CodeGenIssue::EmissionIssue(prefix + s),
        CodeGenIssue::ValidationIssue(s) => CodeGenIssue::ValidationIssue(prefix + s),
        CodeGenIssue::InitializationIssue(s) => CodeGenIssue::InitializationIssue(prefix + s),
        CodeGenIssue::UndefinedVarIssue(s) => CodeGenIssue::UndefinedVarIssue(prefix + s),
        CodeGenIssue::OperationIssue(s) => CodeGenIssue::OperationIssue(prefix + s),
        CodeGenIssue::OwnershipIssue(s) => CodeGenIssue::OwnershipIssue(prefix + s),
        CodeGenIssue::AsyncIssue(s) => CodeGenIssue::AsyncIssue(prefix + s),
        CodeGenIssue::MemoryIssue(s) => CodeGenIssue::MemoryIssue(prefix + s),
        CodeGenIssue::InternalIssue(s) => CodeGenIssue::InternalIssue(prefix + s),
    }
}

/// Classification of errors by origin.
#[derive(Debug, Clone, Copy, PartialEq, Eq, Structural)]
pub enum ErrorCategory {
    Type,
    Expression,
    Method,
    Emission,
    Validation,
    Initialization,
    Variable,
    Operation,
    Ownership,
    Async,
    Memory,
    Internal,
}

/// The category an error belongs to.
pub open spec fn category_of(e: CodeGenError) -> ErrorCategory {
    match e {
        CodeGenError::TypeConversion(_) => ErrorCategory::Type,
        CodeGenError::ExpressionCompilation(_) => ErrorCategory::Expression,
        CodeGenError::MethodCompilation(_) => ErrorCategory::Method,
        CodeGenError::Emission(_) => ErrorCategory::Emission,
        CodeGenError::Validation(_) => ErrorCategory::Validation,
        CodeGenError::Initialization(_) => ErrorCategory::Initialization,
        CodeGenError::UndefinedVariable(_) => ErrorCategory::Variable,
        CodeGenError::InvalidOperation(_) => ErrorCategory::Operation,
        CodeGenError::OwnershipViolation(_) => ErrorCategory::Ownership,
        CodeGenError::AsyncError(_) => ErrorCategory::Async,
        CodeGenError::MemoryError(_) => ErrorCategory::Memory,
        CodeGenError::Internal(_) => ErrorCategory::Internal,
    }
}

/// Whether an error aborts only the current actor or method.  Internal
/// faults, initialization failures and the backend-level emission and
/// validation failures abort the whole run; everything else — a memory
/// management failure included, which strikes one type of one actor —
/// is recoverable.
pub open spec fn recoverable(e: CodeGenError) -> bool {
    match e {
        CodeGenError::Internal(_) => false,
        CodeGenError::Initialization(_) => false,
        CodeGenError::Emission(_) => false,
        CodeGenError::Validation(_) => false,
        _ => true,
    }
}

/// Detailed information attached to an error for diagnostics.
#[derive(Debug)]
pub struct ErrorContext {
    pub location: Option<SourceLocation>,
    pub context: String,
    pub suggestion: Option<String>,
}

/// A position in a source file.
#[derive(Debug)]
pub struct SourceLocation {
    pub file: String,
    pub line: usize,
    pub column: usize,
}

/// The decimal digits of `n`, most significant first.
pub open spec fn decimal_digits(n: nat) -> Seq<char>
    decreases n,
{
    if n < 10 {
        seq![digit_char(n)]
    } else {
        decimal_digits(n / 10).push(digit_char(n % 10))
    }
}

/// The character for one decimal digit.
pub open spec fn digit_char(d: nat) -> char {
    if d == 0 {
        '0'
    } else if d == 1 {
        '1'
    } else if d == 2 {
        '2'
    } else if d == 3 {
        '3'
    } else if d == 4 {
        '4'
    } else if d == 5 {
        '5'
    } else if d == 6 {
        '6'
    } else if d == 7 {
        '7'
    } else if d == 8 {
        '8'
    } else {
        '9'
    }
}

/// The text of one decimal digit.
fn digit_str(d: usize) -> (s: &'static str)
    requires
        d < 10,
    ensures
        s@ == seq![digit_char(d as nat)],
{
    proof {
        reveal_strlit("0");
        reveal_strlit("1");
        reveal_strlit("2");
        reveal_strlit("3");
        reveal_strlit("4");
        reveal_strlit("5");
        reveal_strlit("6");
        reveal_strlit("7");
        reveal_strlit("8");
        reveal_strlit("9");
    }
    let s: &'static str = match d {
        0 => "0",
        1 => "1",
        2 => "2",
        3 => "3",
        4 => "4",
        5 => "5",
        6 => "6",
        7 => "7",
        8 => "8",
        _ => "9",
    };
    proof {
        assert(s@ =~= seq![digit_char(d as nat)]);
    }
    s
}

/// Appends the decimal digits of `n`, most significant first.
fn append_decimal(out: &mut String, n: usize)
    ensures
        final(out)@ == old(out)@ + decimal_digits(n as nat),
    decreases n,
{
    if n >= 10 {
        append_decimal(out, n / 10);
    }
    let d = digit_str(n % 10);
    out.append(d);
    proof {
        if n >= 10 {
            assert(final(out)@ =~= old(out)@ + decimal_digits(n as nat));
        } else {
            assert(decimal_digits(n as nat) =~= seq![digit_char(n as nat)]);
            assert(final(out)@ =~= old(out)@ + decimal_digits(n as nat));
        }
    }
}

/// The decimal digits of `n`, without sign, padding or separators.
fn format_usize(n: usize) -> (s: String)
    ensures
        s@ == decimal_digits(n as nat),
{
    let mut s = String::new();
    append_decimal(&mut s, n);
    proof {
        assert(s@ =~= decimal_digits(n as nat));
    }
    s
}

impl SourceLocation {
    /// Renders the location as "file:line:column".
    pub fn to_string(&self) -> (s: String)
        ensures
            s@ == self.file@ + ":"@ + decimal_digits(self.line as nat) + ":"@ + decimal_digits(
                self.column as nat,
            ),
    {
        let mut s = self.file.clone();
        s.append(":");
        let line_digits = format_usize(self.line);
        s.append(line_digits.as_str());
        s.append(":");
        let column_digits = format_usize(self.column);
        s.append(column_digits.as_str());
        s
    }
}

impl CodeGenError {
    /// Attaches context to the error.  The context is diagnostic only and
    /// the error value itself is returned unchanged.
    pub fn with_context(self, context: ErrorContext) -> (r: Self)
        ensures
            r == self,
    {
        self
    }

    /// Attaches a suggestion to the error.  The suggestion is diagnostic
    /// only and the error value itself is returned unchanged.
    pub fn with_suggestion(self, suggestion: String) -> (r: Self)
        ensures
            r == self,
    {
        self
    }

    /// Whether the error aborts only the current actor or method.
    pub fn is_recoverable(&self) -> (r: bool)
        ensures
            r == recoverable(*self),
    {
        match self {
            CodeGenError::Internal(_) => false,
            CodeGenError::Initialization(_) => false,
            CodeGenError::Emission(_) => false,
            CodeGenError::Validation(_) => false,
            _ => true,
        }
    }

    /// The category the error belongs to.
    pub fn category(&self) -> (r: ErrorCategory)
        ensures
            r == category_of(*self),
    {
        match self {
            CodeGenError::TypeConversion(_) => ErrorCategory::Type,
            CodeGenError::ExpressionCompilation(_) => ErrorCategory::Expression,
            CodeGenError::MethodCompilation(_) => ErrorCategory::Method,
            CodeGenError::Emission(_) => ErrorCategory::Emission,
            CodeGenError::Validation(_) => ErrorCategory::Validation,
            CodeGenError::Initialization(_) => ErrorCategory::Initialization,
            CodeGenError::UndefinedVariable(_) => ErrorCategory::Variable,
            CodeGenError::InvalidOperation(_) => ErrorCategory::Operation,
            CodeGenError::OwnershipViolation(_) => ErrorCategory::Ownership,
            CodeGenError::AsyncError(_) => ErrorCategory::Async,
            CodeGenError::MemoryError(_) => ErrorCategory::Memory,
            CodeGenError::Internal(_) => ErrorCategory::Internal,
        }
    }

    /// Prefixes the diagnostic text with the enclosing actor and method,
    /// keeping the error's kind, so the orchestrator can wrap a stage's
    /// error without losing its specificity.
    pub fn in_method(self, actor_name: &str, method_name: &str) -> (r: Self)
        ensures
            category_of(r) == category_of(self),
            error_message(r) == "actor "@ + actor_name@ + ", method "@ + method_name@ + ": "@
                + error_message(self),
    {
        let mut prefix = String::from_str("actor ");
        prefix.append(actor_name);
        prefix.append(", method ");
        prefix.append(method_name);
        prefix.append(": ");
        match self {
            CodeGenError::TypeConversion(m) => CodeGenError::TypeConversion(prefix.concat(m.as_str())),
            CodeGenError::ExpressionCompilation(m) => CodeGenError::ExpressionCompilation(
                prefix.concat(m.as_str()),
            ),
            CodeGenError::MethodCompilation(m) => CodeGenError::MethodCompilation(
                prefix.concat(m.as_str()),
            ),
            CodeGenError::Emission(m) => CodeGenError::Emission(prefix.concat(m.as_str())),
            CodeGenError::Validation(m) => CodeGenError::Validation(prefix.concat(m.as_str())),
            CodeGenError::Initialization(m) => CodeGenError::Initialization(
                prefix.concat(m.as_str()),
            ),
            CodeGenError::UndefinedVariable(m) => CodeGenError::UndefinedVariable(
                prefix.concat(m.as_str()),
            ),
            CodeGenError::InvalidOperation(m) => CodeGenError::InvalidOperation(
                prefix.concat(m.as_str()),
            ),
            CodeGenError::OwnershipViolation(m) => CodeGenError::OwnershipViolation(
                prefix.concat(m.as_str()),
            ),
            CodeGenError::AsyncError(m) => CodeGenError::AsyncError(prefix.concat(m.as_str())),
            CodeGenError::MemoryError(m) => CodeGenError::MemoryError(prefix.concat(m.as_str())),
            CodeGenError::Internal(m) => CodeGenError::Internal(prefix.concat(m.as_str())),
        }
    }
}

impl ErrorCategory {
    /// The category's display name.
    pub fn to_string(&self) -> (s: String)
        ensures
            match *self {
                ErrorCategory::Type => s@ == "Type Error"@,
                ErrorCategory::Expression => s@ == "Expression Error"@,
                ErrorCategory::Method => s@ == "Method Error"@,
                ErrorCategory::Emission => s@ == "Emission Error"@,
                ErrorCategory::Validation => s@ == "Validation Error"@,
                ErrorCategory::Initialization => s@ == "Initialization Error"@,
                ErrorCategory::Variable => s@ == "Variable Error"@,
                ErrorCategory::Operation => s@ == "Operation Error"@,
                ErrorCategory::Ownership => s@ == "Ownership Error"@,
                ErrorCategory::Async => s@ == "Async Error"@,
                ErrorCategory::Memory => s@ == "Memory Error"@,
                ErrorCategory::Internal => s@ == "Internal Error"@,
            },
    {
        match self {
            ErrorCategory::Type => String::from_str("Type Error"),
            ErrorCategory::Expression => String::from_str("Expression Error"),
            ErrorCategory::Method => String::from_str("Method Error"),
            ErrorCategory::Emission => String::from_str("Emission Error"),
            ErrorCategory::Validation => String::from_str("Validation Error"),
            ErrorCategory::Initialization => String::from_str("Initialization Error"),
            ErrorCategory::Variable => String::from_str("Variable Error"),
            ErrorCategory::Operation => String::from_str("Operation Error"),
            ErrorCategory::Ownership => String::from_str("Ownership Error"),
            ErrorCategory::Async => String::from_str("Async Error"),
            ErrorCategory::Memory => String::from_str("Memory Error"),
            ErrorCategory::Internal => String::from_str("Internal Error"),
        }
    }
}

} // verus!
