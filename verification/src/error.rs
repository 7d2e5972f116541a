//! The error taxonomy of the generator: one enum per layer, none overlapping another.
//!
//! No layer recovers from the error of another. The one line that the user sees is the
//! `message` of the top-level [`Error`].

use vstd::prelude::*;
use vstd::string::*;
use syn::Error as SyntaxError;
use xml::reader::Error as ReadError;
use crate::text::decimal;
use crate::text::join3;
use crate::text::join5;
use crate::text::join7;
use crate::text::spec_decimal;

verus! {

/// A place in the input document. Rows and columns count from zero.
#[derive(Clone, Copy, Debug, PartialEq, Eq, Structural)]
pub struct TextPosition {
    pub row: u64,
    pub column: u64,
}

impl TextPosition {
    /// The beginning of the document.
    pub fn new() -> (r: TextPosition)
        ensures
            r == (TextPosition { row: 0, column: 0 }),
    {
        TextPosition { row: 0, column: 0 }
    }

    /// The place as a reader of the document counts: `row:column`, both from one.
    pub open spec fn spec_message(self) -> Seq<char> {
        spec_decimal((self.row + 1) as nat) + ":"@ + spec_decimal((self.column + 1) as nat)
    }

    /// The place as text: `row:column`, both counted from one.
    pub fn message(&self) -> (r: String)
        ensures
            r@ == self.spec_message(),
    {
        let row = decimal(self.row as u128 + 1);
        let column = decimal(self.column as u128 + 1);
        join3(row.as_str(), ":", column.as_str())
    }
}

/// `xml::reader::Error`: the failure that the XML reader reports for a document that is not
/// well formed.
#[verifier::external_type_specification]
#[verifier::external_body]
pub struct ExReadError(ReadError);

/// `syn::Error`: the failure that the syntax check reports for text that is not well-formed
/// source.
#[verifier::external_type_specification]
#[verifier::external_body]
pub struct ExSyntaxError(SyntaxError);

/// The `Display` of `xml::reader::Error`: the failure in the reader's own words.
#[verifier::external_body]
fn read_error_text(e: &ReadError) -> (r: String) {
    format!("{e}")
}

/// The `Display` of `syn::Error`: the failure in the checker's own words.
#[verifier::external_body]
fn syntax_error_text(e: &SyntaxError) -> (r: String) {
    format!("{e}")
}

/// What can go wrong on the command line.
#[derive(Debug)]
pub enum CmdError {
    /// An argument that is no option of the program.
    BadCmdArg(String),
    /// An option at the end of the line that lacks its value.
    ReqCmdArg(String),
}

/// `CmdError` with its strings as character sequences.
pub ghost enum CmdErrorView {
    BadCmdArg(Seq<char>),
    ReqCmdArg(Seq<char>),
}

impl DeepView for CmdError {
    type V = CmdErrorView;

    open spec fn deep_view(&self) -> CmdErrorView {
        match *self {
            CmdError::BadCmdArg(arg) => CmdErrorView::BadCmdArg(arg@),
            CmdError::ReqCmdArg(arg) => CmdErrorView::ReqCmdArg(arg@),
        }
    }
}

impl CmdErrorView {
    /// The error in words.
    pub open spec fn message(self) -> Seq<char> {
        match self {
            CmdErrorView::BadCmdArg(arg) => "bad command-line argument '"@ + arg + "'"@,
            CmdErrorView::ReqCmdArg(arg) => "command-line argument '"@ + arg
                + "' unexpectedly terminated"@,
        }
    }
}

impl CmdError {
    /// The error in words.
    pub fn message(&self) -> (r: String)
        ensures
            r@ == self.deep_view().message(),
    {
        match self {
            CmdError::BadCmdArg(arg) => join3("bad command-line argument '", arg.as_str(), "'"),
            CmdError::ReqCmdArg(arg) => join3(
                "command-line argument '",
                arg.as_str(),
                "' unexpectedly terminated",
            ),
        }
    }
}

/// What can go wrong while the registry document is parsed.
#[derive(Debug)]
pub enum ParseError {
    /// The document ended without a root element.
    EmptyRegistry,
    /// An element was handed to the handler of another element.
    BadStart(String),
    /// An element holds text that its grammar does not allow: element, text.
    BadContent(String, String),
    /// An element holds a child that its grammar does not allow: parent, child.
    BadChild(String, String),
    /// A required attribute is missing: element, attribute.
    ReqAttrib(String, String),
    /// An attribute holds a value outside its grammar: element, attribute, value.
    BadAttrib(String, String, String),
    /// An attribute that the element's grammar does not know: element, attribute, value.
    UnreadAttrib(String, String, String),
    /// A closing tag that does not match the open element.
    BadEnd(String),
    /// The document ended inside the named element.
    DocEnd(String),
    /// The document is not well-formed XML.
    XmlRead(ReadError),
}

/// `ParseError` with its strings as character sequences.
pub ghost enum ParseErrorView {
    EmptyRegistry,
    BadStart(Seq<char>),
    BadContent(Seq<char>, Seq<char>),
    BadChild(Seq<char>, Seq<char>),
    ReqAttrib(Seq<char>, Seq<char>),
    BadAttrib(Seq<char>, Seq<char>, Seq<char>),
    UnreadAttrib(Seq<char>, Seq<char>, Seq<char>),
    BadEnd(Seq<char>),
    DocEnd(Seq<char>),
    XmlRead(ReadError),
}

impl DeepView for ParseError {
    type V = ParseErrorView;

    open spec fn deep_view(&self) -> ParseErrorView {
        match *self {
            ParseError::EmptyRegistry => ParseErrorView::EmptyRegistry,
            ParseError::BadStart(e) => ParseErrorView::BadStart(e@),
            ParseError::BadContent(e, t) => ParseErrorView::BadContent(e@, t@),
            ParseError::BadChild(p, c) => ParseErrorView::BadChild(p@, c@),
            ParseError::ReqAttrib(e, a) => ParseErrorView::ReqAttrib(e@, a@),
            ParseError::BadAttrib(e, a, v) => ParseErrorView::BadAttrib(e@, a@, v@),
            ParseError::UnreadAttrib(e, a, v) => ParseErrorView::UnreadAttrib(e@, a@, v@),
            ParseError::BadEnd(e) => ParseErrorView::BadEnd(e@),
            ParseError::DocEnd(e) => ParseErrorView::DocEnd(e@),
            ParseError::XmlRead(e) => ParseErrorView::XmlRead(e),
        }
    }
}

impl ParseErrorView {
    /// The error in words. For a failure of the XML reader the words are the reader's own.
    pub open spec fn message(self) -> Option<Seq<char>> {
        match self {
            ParseErrorView::EmptyRegistry => Some("empty registry"@),
            ParseErrorView::BadStart(e) => Some("bad start <"@ + e + ">"@),
            ParseErrorView::BadContent(e, t) => Some(
                "element <"@ + e + "> has bad content '"@ + t + "'"@,
            ),
            ParseErrorView::BadChild(p, c) => Some(
                "element <"@ + p + "> has invalid child <"@ + c + ">"@,
            ),
            ParseErrorView::ReqAttrib(e, a) => Some(
                "element <"@ + e + "> missing attribute '"@ + a + "'"@,
            ),
            ParseErrorView::BadAttrib(e, a, v) => Some(
                "element <"@ + e + "> has bad attribute '"@ + a + "="@ + v + "'"@,
            ),
            ParseErrorView::UnreadAttrib(e, a, v) => Some(
                "element <"@ + e + "> has unread attribute '"@ + a + "="@ + v + "'"@,
            ),
            ParseErrorView::BadEnd(e) => Some("bad tag ending </"@ + e + ">"@),
            ParseErrorView::DocEnd(e) => Some("document ended inside <"@ + e + ">"@),
            ParseErrorView::XmlRead(_) => None,
        }
    }
}

impl ParseError {
    /// The error in words.
    pub fn message(&self) -> (r: String)
        ensures
            match self.deep_view().message() {
                Some(m) => r@ == m,
                None => self is XmlRead,
            },
    {
        match self {
            ParseError::EmptyRegistry => String::from_str("empty registry"),
            ParseError::BadStart(e) => join3("bad start <", e.as_str(), ">"),
            ParseError::BadContent(e, t) => join5(
                "element <",
                e.as_str(),
                "> has bad content '",
                t.as_str(),
                "'",
            ),
            ParseError::BadChild(p, c) => join5(
                "element <",
                p.as_str(),
                "> has invalid child <",
                c.as_str(),
                ">",
            ),
            ParseError::ReqAttrib(e, a) => join5(
                "element <",
                e.as_str(),
                "> missing attribute '",
                a.as_str(),
                "'",
            ),
            ParseError::BadAttrib(e, a, v) => join7(
                "element <",
                e.as_str(),
                "> has bad attribute '",
                a.as_str(),
                "=",
                v.as_str(),
                "'",
            ),
            ParseError::UnreadAttrib(e, a, v) => join7(
                "element <",
                e.as_str(),
                "> has unread attribute '",
                a.as_str(),
                "=",
                v.as_str(),
                "'",
            ),
            ParseError::BadEnd(e) => join3("bad tag ending </", e.as_str(), ">"),
            ParseError::DocEnd(e) => join3("document ended inside <", e.as_str(), ">"),
            ParseError::XmlRead(e) => read_error_text(e),
        }
    }
}

/// What can go wrong while the parsed registry is linked.
#[derive(Debug)]
pub enum TransError {
    /// A reference names a type that is neither declared nor built in.
    TypeNotFound(String),
    /// A declaration from which no type can be made.
    BadType,
    /// Two declarations share a name.
    DuplicateName(String),
}

/// `TransError` with its strings as character sequences.
pub ghost enum TransErrorView {
    TypeNotFound(Seq<char>),
    BadType,
    DuplicateName(Seq<char>),
}

impl DeepView for TransError {
    type V = TransErrorView;

    open spec fn deep_view(&self) -> TransErrorView {
        match *self {
            TransError::TypeNotFound(name) => TransErrorView::TypeNotFound(name@),
            TransError::BadType => TransErrorView::BadType,
            TransError::DuplicateName(name) => TransErrorView::DuplicateName(name@),
        }
    }
}

impl TransErrorView {
    /// The error in words.
    pub open spec fn message(self) -> Seq<char> {
        match self {
            TransErrorView::TypeNotFound(name) => "type '"@ + name + "' not found"@,
            TransErrorView::BadType => "bad type"@,
            TransErrorView::DuplicateName(name) => "duplicate name '"@ + name + "'"@,
        }
    }
}

impl TransError {
    /// The error in words.
    pub fn message(&self) -> (r: String)
        ensures
            r@ == self.deep_view().message(),
    {
        match self {
            TransError::TypeNotFound(name) => join3("type '", name.as_str(), "' not found"),
            TransError::BadType => String::from_str("bad type"),
            TransError::DuplicateName(name) => join3("duplicate name '", name.as_str(), "'"),
        }
    }
}

/// What can go wrong while the bindings are emitted.
#[derive(Debug)]
pub enum EmitError {
    /// A member from whose name no identifier can be made: structure, member.
    BadStructMember(String, String),
    /// The text built for a module is not well-formed source.
    Format(SyntaxError),
}

/// `EmitError` with its strings as character sequences.
pub ghost enum EmitErrorView {
    BadStructMember(Seq<char>, Seq<char>),
    Format(SyntaxError),
}

impl DeepView for EmitError {
    type V = EmitErrorView;

    open spec fn deep_view(&self) -> EmitErrorView {
        match *self {
            EmitError::BadStructMember(s, m) => EmitErrorView::BadStructMember(s@, m@),
            EmitError::Format(e) => EmitErrorView::Format(e),
        }
    }
}

impl EmitErrorView {
    /// The error in words. For a failure of the syntax check the words are the checker's own.
    pub open spec fn message(self) -> Option<Seq<char>> {
        match self {
            EmitErrorView::BadStructMember(s, m) => Some(
                "structure '"@ + s + "' has bad member '"@ + m + "'"@,
            ),
            EmitErrorView::Format(_) => None,
        }
    }
}

impl EmitError {
    /// The error in words.
    pub fn message(&self) -> (r: String)
        ensures
            match self.deep_view().message() {
                Some(m) => r@ == m,
                None => self is Format,
            },
    {
        match self {
            EmitError::BadStructMember(s, m) => join5(
                "structure '",
                s.as_str(),
                "' has bad member '",
                m.as_str(),
                "'",
            ),
            EmitError::Format(e) => syntax_error_text(e),
        }
    }
}

/// An error of any layer.
#[derive(Debug)]
pub enum Error {
    Cmd(CmdError),
    /// A parse error and the place in the document that the reader had reached.
    Parse(TextPosition, ParseError),
    Trans(TransError),
    Emit(EmitError),
}

/// `Error` with its strings as character sequences.
pub ghost enum ErrorView {
    Cmd(CmdErrorView),
    Parse(TextPosition, ParseErrorView),
    Trans(TransErrorView),
    Emit(EmitErrorView),
}

impl DeepView for Error {
    type V = ErrorView;

    open spec fn deep_view(&self) -> ErrorView {
        match *self {
            Error::Cmd(e) => ErrorView::Cmd(e.deep_view()),
            Error::Parse(pos, e) => ErrorView::Parse(pos, e.deep_view()),
            Error::Trans(e) => ErrorView::Trans(e.deep_view()),
            Error::Emit(e) => ErrorView::Emit(e.deep_view()),
        }
    }
}

impl ErrorView {
    /// The line that the user sees: `error at <line>:<column>: <message>` for a parse error,
    /// the bare message for the other layers.
    pub open spec fn message(self) -> Option<Seq<char>> {
        match self {
            ErrorView::Cmd(e) => Some(e.message()),
            ErrorView::Parse(pos, e) => match e.message() {
                Some(m) => Some("error at "@ + pos.spec_message() + ": "@ + m),
                None => None,
            },
            ErrorView::Trans(e) => Some(e.message()),
            ErrorView::Emit(e) => e.message(),
        }
    }
}

impl ErrorView {
    /// Whether the words of the error are those of an outside crate: whether it is a failure
    /// of the XML reader or of the syntax check.
    pub open spec fn in_other_words(self) -> bool {
        match self {
            ErrorView::Parse(_, e) => e is XmlRead,
            ErrorView::Emit(e) => e is Format,
            _ => false,
        }
    }
}

impl Error {
    /// A parse error at the given place.
    pub fn parse(pos: TextPosition, error: ParseError) -> (r: Error)
        ensures
            r == Error::Parse(pos, error),
    {
        Error::Parse(pos, error)
    }

    /// The line that the user sees.
    pub fn message(&self) -> (r: String)
        ensures
            match self.deep_view().message() {
                Some(m) => r@ == m,
                None => self.deep_view().in_other_words(),
            },
    {
        match self {
            Error::Cmd(e) => e.message(),
            Error::Parse(pos, e) => {
                let place = pos.message();
                let words = e.message();
                let r = join5("error at ", place.as_str(), ": ", words.as_str(), "");
                proof {
                    assert(r@ =~= "error at "@ + place@ + ": "@ + words@) by {
                        reveal_strlit("");
                    }
                }
                r
            },
            Error::Trans(e) => e.message(),
            Error::Emit(e) => e.message(),
        }
    }
}

} // verus!
