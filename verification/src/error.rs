//! The failures of the codec: which way the data was going, and what went wrong.

use vstd::prelude::*;

verus! {

/// The direction in which the codec was running when it failed.
#[derive(Clone, Copy, Debug, PartialEq, Eq, Structural)]
pub enum Direction {
    Serialization,
    Deserialization,
}

impl Direction {
    /// The word under which the direction appears in a rendered error.
    pub open spec fn text(self) -> Seq<char> {
        match self {
            Direction::Serialization => "serialization"@,
            Direction::Deserialization => "deserialization"@,
        }
    }

    /// Renders the direction.
    pub fn as_str(&self) -> (word: &'static str)
        ensures
            word@ == self.text(),
    {
        match self {
            Direction::Serialization => "serialization",
            Direction::Deserialization => "deserialization",
        }
    }
}

/// The reason for a failure.
#[derive(Clone, Debug, PartialEq, Eq)]
pub enum ErrorCode {
    /// A free-form failure, raised by the protocol or by the target type.
    Message(String),
    /// The writer or the reader was asked for something that a bare name
    /// cannot express.
    UnsupportedOperation(String),
    /// The token has the wrong structure for what was asked of it.
    InvalidType { unexpected: String, expected: String },
    /// The token is none of the declared names.
    InvalidVariantName { received: String, allowed: Vec<String> },
    /// The value was rebuilt, but input was left over.
    TrailingCharacters,
}

/// An [`ErrorCode`] with its strings seen as sequences of characters.
pub enum ErrorCodeView {
    Message(Seq<char>),
    UnsupportedOperation(Seq<char>),
    InvalidType { unexpected: Seq<char>, expected: Seq<char> },
    InvalidVariantName { received: Seq<char>, allowed: Seq<Seq<char>> },
    TrailingCharacters,
}

/// The character sequences of a list of strings, in order.
pub open spec fn texts(names: Seq<String>) -> Seq<Seq<char>> {
    Seq::new(names.len(), |i: int| names[i]@)
}

/// The character sequences of a list of string slices, in order.
pub open spec fn slice_texts(names: Seq<&'static str>) -> Seq<Seq<char>> {
    Seq::new(names.len(), |i: int| names[i]@)
}

impl View for ErrorCode {
    type V = ErrorCodeView;

    open spec fn view(&self) -> ErrorCodeView {
        match *self {
            ErrorCode::Message(msg) => ErrorCodeView::Message(msg@),
            ErrorCode::UnsupportedOperation(op) => ErrorCodeView::UnsupportedOperation(op@),
            ErrorCode::InvalidType { unexpected, expected } => ErrorCodeView::InvalidType {
                unexpected: unexpected@,
                expected: expected@,
            },
            ErrorCode::InvalidVariantName { received, allowed } => {
                ErrorCodeView::InvalidVariantName { received: received@, allowed: texts(allowed@) }
            },
            ErrorCode::TrailingCharacters => ErrorCodeView::TrailingCharacters,
        }
    }
}

/// How the standard library's `Debug` formatting renders a list of strings.
pub uninterp spec fn debug_list(names: Seq<Seq<char>>) -> Seq<char>;

/// The rendering of an unsupported operation.
pub open spec fn unsupported_text(op: Seq<char>) -> Seq<char> {
    "unsupported operation: "@ + op
}

/// The rendering of a token of the wrong structure.
pub open spec fn invalid_type_text(unexpected: Seq<char>, expected: Seq<char>) -> Seq<char> {
    "invalid type: "@ + unexpected + ", expected "@ + expected
}

/// The rendering of an unknown name, given the rendered list of the names
/// that were allowed.
pub open spec fn invalid_variant_text(received: Seq<char>, listed: Seq<char>) -> Seq<char> {
    "invalid variant: "@ + received + " is not a valid variant name ("@ + listed + ")"@
}

/// The rendering of left-over input.
pub open spec fn trailing_text() -> Seq<char> {
    "trailing characters: input ends with trailing characters"@
}

impl ErrorCodeView {
    /// The message that the code renders to.
    pub open spec fn text(self) -> Seq<char> {
        match self {
            ErrorCodeView::Message(msg) => msg,
            ErrorCodeView::UnsupportedOperation(op) => unsupported_text(op),
            ErrorCodeView::InvalidType { unexpected, expected } => invalid_type_text(
                unexpected,
                expected,
            ),
            ErrorCodeView::InvalidVariantName { received, allowed } => invalid_variant_text(
                received,
                debug_list(allowed),
            ),
            ErrorCodeView::TrailingCharacters => trailing_text(),
        }
    }
}

/// Formats a list of names with `Debug`, through `format!("{:?}", ..)` on a
/// `Vec<String>`. The result is a function of the strings alone; the contract
/// gives it a name and claims nothing more of it.
#[verifier::external_body]
fn debug_names(names: &Vec<String>) -> (listed: String)
    ensures
        listed@ == debug_list(texts(names@)),
{
    format!("{:?}", names)
}

/// Renders an unsupported operation.
pub fn unsupported_message(op: &str) -> (message: String)
    ensures
        message@ == unsupported_text(op@),
{
    let mut message = String::from_str("unsupported operation: ");
    message.append(op);
    message
}

/// Renders a token of the wrong structure.
pub fn invalid_type_message(unexpected: &str, expected: &str) -> (message: String)
    ensures
        message@ == invalid_type_text(unexpected@, expected@),
{
    let mut message = String::from_str("invalid type: ");
    message.append(unexpected);
    message.append(", expected ");
    message.append(expected);
    message
}

/// Renders an unknown name. `listed` is the list of allowed names as it is to
/// appear between the parentheses.
pub fn invalid_variant_message(received: &str, listed: &str) -> (message: String)
    ensures
        message@ == invalid_variant_text(received@, listed@),
{
    let mut message = String::from_str("invalid variant: ");
    message.append(received);
    message.append(" is not a valid variant name (");
    message.append(listed);
    message.append(")");
    message
}

impl ErrorCode {
    /// Renders the code as a message for people.
    pub fn message(&self) -> (message: String)
        ensures
            message@ == self@.text(),
    {
        match self {
            ErrorCode::Message(msg) => msg.clone(),
            ErrorCode::UnsupportedOperation(op) => unsupported_message(op.as_str()),
            ErrorCode::InvalidType { unexpected, expected } => invalid_type_message(
                unexpected.as_str(),
                expected.as_str(),
            ),
            ErrorCode::InvalidVariantName { received, allowed } => {
                let listed = debug_names(allowed);
                invalid_variant_message(received.as_str(), listed.as_str())
            },
            ErrorCode::TrailingCharacters => String::from_str(
                "trailing characters: input ends with trailing characters",
            ),
        }
    }
}

/// A failure of the codec.
#[derive(Clone, Debug, PartialEq, Eq)]
pub struct Error {
    direction: Direction,
    code: ErrorCode,
}

/// An [`Error`] with its strings seen as sequences of characters.
pub struct ErrorView {
    pub direction: Direction,
    pub code: ErrorCodeView,
}

impl ErrorView {
    /// The message that the error renders to: the direction, a colon and the
    /// code's message.
    pub open spec fn text(self) -> Seq<char> {
        self.direction.text() + ": "@ + self.code.text()
    }
}

impl View for Error {
    type V = ErrorView;

    closed spec fn view(&self) -> ErrorView {
        ErrorView { direction: self.direction, code: self.code@ }
    }
}

impl Error {
    /// A failure while decoding.
    pub fn deserialization(code: ErrorCode) -> (error: Error)
        ensures
            error@ == (ErrorView { direction: Direction::Deserialization, code: code@ }),
    {
        Error { direction: Direction::Deserialization, code }
    }

    /// A failure while encoding.
    pub fn serialization(code: ErrorCode) -> (error: Error)
        ensures
            error@ == (ErrorView { direction: Direction::Serialization, code: code@ }),
    {
        Error { direction: Direction::Serialization, code }
    }

    /// The direction in which the codec was running.
    pub fn direction(&self) -> (direction: Direction)
        ensures
            direction == self@.direction,
    {
        self.direction
    }

    /// The reason for the failure.
    pub fn code(&self) -> (code: &ErrorCode)
        ensures
            code@ == self@.code,
    {
        &self.code
    }

    /// A free-form failure in the given direction.
    pub fn custom(direction: Direction, msg: &str) -> (error: Error)
        ensures
            error@ == (ErrorView { direction, code: ErrorCodeView::Message(msg@) }),
    {
        Error { direction, code: ErrorCode::Message(String::from_str(msg)) }
    }

    /// The failure of a decoder that was handed a name it does not know.
    pub fn unknown_variant(variant: &str, expected: &[&'static str]) -> (error: Error)
        ensures
            error@ == (ErrorView {
                direction: Direction::Deserialization,
                code: ErrorCodeView::InvalidVariantName {
                    received: variant@,
                    allowed: slice_texts(expected@),
                },
            }),
    {
        let mut allowed: Vec<String> = Vec::new();
        let mut i: usize = 0;
        while i < expected.len()
            invariant
                i <= expected@.len(),
                allowed@.len() == i,
                forall|k: int| 0 <= k < i ==> (#[trigger] allowed@[k])@ == expected@[k]@,
            decreases expected@.len() - i,
        {
            allowed.push(String::from_str(expected[i]));
            i = i + 1;
        }
        assert(texts(allowed@) =~= slice_texts(expected@));
        Error {
            direction: Direction::Deserialization,
            code: ErrorCode::InvalidVariantName { received: String::from_str(variant), allowed },
        }
    }

    /// The failure of a decoder that met a token of the wrong structure.
    /// Both arguments are already rendered.
    pub fn invalid_type(unexpected: &str, expected: &str) -> (error: Error)
        ensures
            error@ == (ErrorView {
                direction: Direction::Deserialization,
                code: ErrorCodeView::InvalidType { unexpected: unexpected@, expected: expected@ },
            }),
    {
        Error {
            direction: Direction::Deserialization,
            code: ErrorCode::InvalidType {
                unexpected: String::from_str(unexpected),
                expected: String::from_str(expected),
            },
        }
    }

    /// Renders the error as a message for people.
    pub fn message(&self) -> (message: String)
        ensures
            message@ == self@.text(),
    {
        let mut message = String::from_str(self.direction.as_str());
        message.append(": ");
        let code = self.code.message();
        message.append(code.as_str());
        message
    }
}

} // verus!
