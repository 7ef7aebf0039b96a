//! The error chain: a closed taxonomy of failure kinds, an annotation
//! mechanism that wraps any failure in a human-readable context message
//! without losing the original cause, and a renderer that shows both the
//! deepest technical cause and the full annotation trail.

use vstd::prelude::*;
use vstd::string::StringExecFns;

verus! {

/// The closed set of failure kinds.
///
/// Every kind but [`LlmErrorType::Context`] is a leaf: a classified failure
/// carrying a textual description of the underlying cause. `Context` is the
/// one recursive kind; it pairs an annotation message with the owned prior
/// cause, so a chain of annotations always ends in a non-`Context` leaf.
#[derive(Debug)]
pub enum LlmErrorType {
    /// A failure of the HTTP transport, carrying its description.
    Reqwest(String),
    /// A URL could not be parsed.
    Parse(String),
    /// A payload could not be decoded as JSON.
    Json(String),
    /// An I/O failure.
    Io(String),
    /// An otherwise unclassified cause.
    Generic(String),
    /// An annotation wrapped around a prior cause.
    Context { message: String, source: Box<LlmErrorType> },
    /// A required value was absent.
    Empty { value: String, expected: Vec<String> },
}

impl LlmErrorType {
    /// The non-`Context` leaf at the bottom of the annotation chain.
    pub open spec fn leaf(self) -> LlmErrorType
        decreases self,
    {
        match self {
            LlmErrorType::Context { source, .. } => source.leaf(),
            _ => self,
        }
    }

    /// The annotation messages on the chain, outermost first.
    pub open spec fn messages(self) -> Seq<Seq<char>>
        decreases self,
    {
        match self {
            LlmErrorType::Context { message, source } => seq![message@] + source.messages(),
            _ => Seq::empty(),
        }
    }

    /// How many annotations wrap the leaf.
    pub open spec fn depth(self) -> nat
        decreases self,
    {
        match self {
            LlmErrorType::Context { source, .. } => 1 + source.depth(),
            _ => 0,
        }
    }
}

/// The leaf at the bottom of a chain is never itself an annotation.
pub proof fn lemma_leaf_is_leaf(e: LlmErrorType)
    ensures
        !(e.leaf() is Context),
    decreases e,
{
    match e {
        LlmErrorType::Context { source, .. } => lemma_leaf_is_leaf(*source),
        _ => {},
    }
}

/// One step along the cause chain: what following the cause once reaches.
/// An annotation steps to its source; a leaf stays where it is.
pub open spec fn step_cause(e: LlmErrorType) -> LlmErrorType {
    match e {
        LlmErrorType::Context { source, .. } => *source,
        _ => e,
    }
}

/// Following the cause chain `n` steps.
pub open spec fn nth_cause(e: LlmErrorType, n: nat) -> LlmErrorType
    decreases n,
{
    if n == 0 {
        e
    } else {
        nth_cause(step_cause(e), (n - 1) as nat)
    }
}

/// A cause walker terminates: following the chain for as many steps as there
/// are annotations reaches the leaf, and a leaf is a fixpoint, so walking any
/// further never moves again.
pub proof fn lemma_cause_walk_reaches_leaf(e: LlmErrorType)
    ensures
        nth_cause(e, e.depth()) == e.leaf(),
        !(nth_cause(e, e.depth()) is Context),
    decreases e,
{
    lemma_leaf_is_leaf(e);
    match e {
        LlmErrorType::Context { source, .. } => {
            lemma_cause_walk_reaches_leaf(*source);
        },
        _ => {},
    }
}

/// One decimal digit as a character.
pub open spec fn digit_char(d: nat) -> char {
    if d == 0 {
        '0'
    } else if d == 1 {
        '1'
    } else if d == 2 {
        '2'
    } else if d == 3 {
        '3'
    } else if d == 4 {
        '4'
    } else if d == 5 {
        '5'
    } else if d == 6 {
        '6'
    } else if d == 7 {
        '7'
    } else if d == 8 {
        '8'
    } else {
        '9'
    }
}

/// The decimal rendering of a number, most significant digit first.
pub open spec fn decimal(n: nat) -> Seq<char>
    decreases n,
{
    if n < 10 {
        seq![digit_char(n)]
    } else {
        decimal(n / 10) + seq![digit_char(n % 10)]
    }
}

fn digit_str(d: u32) -> (r: &'static str)
    requires
        d < 10,
    ensures
        r@ == seq![digit_char(d as nat)],
{
    let r = match d {
        0 => "0",
        1 => "1",
        2 => "2",
        3 => "3",
        4 => "4",
        5 => "5",
        6 => "6",
        7 => "7",
        8 => "8",
        _ => "9",
    };
    proof {
        reveal_strlit("0");
        reveal_strlit("1");
        reveal_strlit("2");
        reveal_strlit("3");
        reveal_strlit("4");
        reveal_strlit("5");
        reveal_strlit("6");
        reveal_strlit("7");
        reveal_strlit("8");
        reveal_strlit("9");
        assert(r@ =~= seq![digit_char(d as nat)]);
    }
    r
}

fn append_decimal(n: u32, out: &mut String)
    ensures
        final(out)@ == old(out)@ + decimal(n as nat),
    decreases n,
{
    if n >= 10 {
        append_decimal(n / 10, out);
    }
    out.append(digit_str(n % 10));
    proof {
        assert(final(out)@ =~= old(out)@ + decimal(n as nat));
    }
}

/// A context annotation together with where in the code it was attached.
#[derive(Debug)]
pub struct ErrorContext {
    pub message: String,
    pub file: &'static str,
    pub line: u32,
}

impl ErrorContext {
    /// What [`ErrorContext::describe`] produces: the message followed by the
    /// source location.
    pub open spec fn describe_spec(self) -> Seq<char> {
        self.message@ + " (at "@ + self.file@ + ":"@ + decimal(self.line as nat) + ")"@
    }

    /// Renders the annotation with its source location.
    pub fn describe(&self) -> (r: String)
        ensures
            r@ == self.describe_spec(),
    {
        let mut out = self.message.clone();
        out.append(" (at ");
        out.append(self.file);
        out.append(":");
        append_decimal(self.line, &mut out);
        out.append(")");
        proof {
            assert(out@ =~= self.describe_spec());
        }
        out
    }
}

/// An error value: one [`LlmErrorType`], possibly an annotation chain.
#[derive(Debug)]
pub struct LlmError {
    pub error_type: LlmErrorType,
}

impl LlmError {
    /// Wraps a failure kind as an error value.
    pub fn new(error_type: LlmErrorType) -> (r: Self)
        ensures
            r.error_type == error_type,
    {
        Self { error_type }
    }

    /// Wraps this error in a new annotation carrying `message`.
    ///
    /// Annotation composes: the previous value, annotations included, becomes
    /// the source of the new `Context` node, so no prior annotation is lost.
    pub fn add_context(self, message: String) -> (r: Self)
        ensures
            r.error_type == (LlmErrorType::Context {
                message,
                source: Box::new(self.error_type),
            }),
    {
        let source = Box::new(self.error_type);

        Self::new(LlmErrorType::Context { message, source })
    }

    /// Builds an annotation node around an existing cause.
    pub fn new_context(message: String, source: Box<LlmErrorType>) -> (r: Self)
        ensures
            r.error_type == (LlmErrorType::Context { message, source }),
    {
        Self::new(LlmErrorType::Context { message, source })
    }

    /// The underlying cause: for an annotation, the wrapped source; for a
    /// leaf, the leaf's own classified kind. A walker that follows causes
    /// therefore never fails to get a value, and reaches a fixpoint one step
    /// past the innermost leaf.
    pub fn cause_of(&self) -> (r: Option<&LlmErrorType>)
        ensures
            match self.error_type {
                LlmErrorType::Context { source, .. } => {
                    r matches Some(c) && *c == *source
                },
                _ => r matches Some(c) && *c == self.error_type,
            },
    {
        match &self.error_type {
            LlmErrorType::Context { source, .. } => Some(source),
            _ => Some(&self.error_type),
        }
    }
}

/// A string rendered inside quotes, as the expected-values list shows its
/// entries.
pub open spec fn quoted(s: Seq<char>) -> Seq<char> {
    "\""@ + s + "\""@
}

/// The expected-values list of an [`LlmErrorType::Empty`] leaf, rendered as
/// quoted entries separated by `", "`.
pub open spec fn quoted_list(items: Seq<String>) -> Seq<char>
    decreases items.len(),
{
    if items.len() == 0 {
        Seq::empty()
    } else if items.len() == 1 {
        quoted(items[0]@)
    } else {
        quoted_list(items.drop_last()) + ", "@ + quoted(items.last()@)
    }
}

/// The one-line description of a leaf kind. An annotation node has no
/// description of its own; its chain is rendered by [`context_lines`].
pub open spec fn leaf_description(t: LlmErrorType) -> Seq<char> {
    match t {
        LlmErrorType::Reqwest(d) => d@,
        LlmErrorType::Parse(d) => d@,
        LlmErrorType::Json(d) => d@,
        LlmErrorType::Io(d) => d@,
        LlmErrorType::Generic(d) => "An error occurred: "@ + d@,
        LlmErrorType::Context { .. } => Seq::empty(),
        LlmErrorType::Empty { value, expected } => {
            "Value was empty. "@ + value@ + ", expected one of: ["@ + quoted_list(expected@)
                + "]"@
        },
    }
}

/// One indented line per annotation message, outermost first.
pub open spec fn context_lines(msgs: Seq<Seq<char>>) -> Seq<char>
    decreases msgs.len(),
{
    if msgs.len() == 0 {
        Seq::empty()
    } else {
        "\t- "@ + msgs[0] + "\n"@ + context_lines(msgs.drop_first())
    }
}

/// What rendering an error produces: first the description of the deepest
/// leaf, then, for an annotated error, the ordered annotation trail.
pub open spec fn render_spec(t: LlmErrorType) -> Seq<char> {
    "Error: "@ + leaf_description(t.leaf()) + "\n"@ + if t is Context {
        "\nContext:\n"@ + context_lines(t.messages())
    } else {
        Seq::empty()
    }
}

fn quoted_items(items: &Vec<String>) -> (r: String)
    ensures
        r@ == quoted_list(items@),
{
    let mut out = String::new();
    let n = items.len();
    assert(items@.take(0) =~= Seq::empty());
    for i in 0..n
        invariant
            n == items@.len(),
            out@ == quoted_list(items@.take(i as int)),
    {
        if i > 0 {
            out.append(", ");
        }
        out.append("\"");
        out.append(items[i].as_str());
        out.append("\"");
        proof {
            assert(items@.take(i + 1).drop_last() =~= items@.take(i as int));
            assert(items@.take(i + 1).last() == items@[i as int]);
            assert(out@ =~= quoted_list(items@.take(i + 1)));
        }
    }
    proof {
        assert(items@.take(n as int) =~= items@);
    }
    out
}

impl From<LlmErrorType> for LlmError {
    /// Wraps a failure kind, so `?` lifts classified kinds into error values.
    fn from(error_type: LlmErrorType) -> (r: Self) {
        Self { error_type }
    }
}

impl vstd::std_specs::convert::FromSpecImpl<LlmErrorType> for LlmError {
    open spec fn obeys_from_spec() -> bool {
        true
    }

    open spec fn from_spec(error_type: LlmErrorType) -> Self {
        LlmError { error_type }
    }
}

impl LlmErrorType {
    /// The wrapped source of an annotation; `None` at a leaf, so repeated
    /// calls always terminate.
    pub fn cause_of(&self) -> (r: Option<&LlmErrorType>)
        ensures
            match *self {
                LlmErrorType::Context { source, .. } => {
                    r matches Some(c) && *c == *source
                },
                _ => r is None,
            },
    {
        match self {
            LlmErrorType::Context { source, .. } => Some(source),
            _ => None,
        }
    }

    /// The leaf at the bottom of this chain.
    fn leaf_ref(&self) -> (r: &LlmErrorType)
        ensures
            *r == self.leaf(),
            !(*r is Context),
        decreases *self,
    {
        match self {
            LlmErrorType::Context { source, .. } => source.leaf_ref(),
            _ => self,
        }
    }

    /// Builds the one-line description of a leaf kind.
    fn describe_leaf(&self) -> (r: String)
        ensures
            r@ == leaf_description(*self),
    {
        match self {
            LlmErrorType::Reqwest(d) => d.clone(),
            LlmErrorType::Parse(d) => d.clone(),
            LlmErrorType::Json(d) => d.clone(),
            LlmErrorType::Io(d) => d.clone(),
            LlmErrorType::Generic(d) => {
                let mut out = String::from_str("An error occurred: ");
                out.append(d.as_str());
                proof {
                    assert(out@ =~= leaf_description(*self));
                }
                out
            },
            LlmErrorType::Context { .. } => String::new(),
            LlmErrorType::Empty { value, expected } => {
                let mut out = String::from_str("Value was empty. ");
                out.append(value.as_str());
                out.append(", expected one of: [");
                let list = quoted_items(expected);
                out.append(list.as_str());
                out.append("]");
                proof {
                    assert(out@ =~= leaf_description(*self));
                }
                out
            },
        }
    }

    /// Appends one indented line per annotation message, outermost first.
    fn append_context_lines(&self, out: &mut String)
        ensures
            final(out)@ == old(out)@ + context_lines(self.messages()),
        decreases *self,
    {
        match self {
            LlmErrorType::Context { message, source } => {
                out.append("\t- ");
                out.append(message.as_str());
                out.append("\n");
                source.append_context_lines(out);
                proof {
                    assert(self.messages().drop_first() =~= source.messages());
                    assert(final(out)@ =~= old(out)@ + context_lines(self.messages()));
                }
            },
            _ => {
                proof {
                    assert(final(out)@ =~= old(out)@ + context_lines(self.messages()));
                }
            },
        }
    }
}

impl LlmError {
    /// Renders the error for an operator: first the deepest technical cause,
    /// then, for an annotated error, every annotation message in the order
    /// the annotations were applied, outermost first, one per line.
    pub fn render(&self) -> (r: String)
        ensures
            r@ == render_spec(self.error_type),
    {
        let mut out = String::from_str("Error: ");
        let leaf = self.error_type.leaf_ref();
        let desc = leaf.describe_leaf();
        out.append(desc.as_str());
        out.append("\n");
        match &self.error_type {
            LlmErrorType::Context { .. } => {
                out.append("\nContext:\n");
                self.error_type.append_context_lines(&mut out);
            },
            _ => {},
        }
        proof {
            assert(out@ =~= render_spec(self.error_type));
        }
        out
    }
}

/// Whether `needle` occurs contiguously inside `hay`.
pub open spec fn contains_sub(hay: Seq<char>, needle: Seq<char>) -> bool {
    exists|i: int|
        0 <= i && i + needle.len() <= hay.len() && #[trigger] hay.subrange(
            i,
            i + needle.len() as int,
        ) == needle
}

/// The middle part of a concatenation occurs in it.
proof fn lemma_concat_contains_middle(a: Seq<char>, b: Seq<char>, c: Seq<char>)
    ensures
        contains_sub(a + b + c, b),
{
    let t = a + b + c;
    assert(t.subrange(a.len() as int, a.len() + b.len() as int) =~= b);
}

/// Annotation composes and loses nothing. Wrapping a cause in one annotation
/// and then another — what two [`LlmError::add_context`] calls build — keeps
/// both messages in the rendered output, stacks them outermost first, and
/// leaves the underlying leaf unchanged: a walker that follows causes long
/// enough still reaches the original classified failure.
pub proof fn lemma_annotation_composes(e: LlmError, m1: String, m2: String)
    ensures
        ({
            let once = LlmErrorType::Context { message: m1, source: Box::new(e.error_type) };
            let twice = LlmErrorType::Context { message: m2, source: Box::new(once) };
            &&& twice.leaf() == e.error_type.leaf()
            &&& !(twice.leaf() is Context)
            &&& twice.messages() == seq![m2@, m1@] + e.error_type.messages()
            &&& contains_sub(render_spec(twice), m1@)
            &&& contains_sub(render_spec(twice), m2@)
        }),
{
    let once = LlmErrorType::Context { message: m1, source: Box::new(e.error_type) };
    let twice = LlmErrorType::Context { message: m2, source: Box::new(once) };
    lemma_leaf_is_leaf(twice);
    assert(twice.leaf() == once.leaf());
    assert(once.messages() == seq![m1@] + e.error_type.messages());
    assert(twice.messages() == seq![m2@] + once.messages());
    assert(twice.messages() =~= seq![m2@, m1@] + e.error_type.messages());

    let desc = leaf_description(twice.leaf());
    let rest1 = once.messages();
    let rest2 = e.error_type.messages();
    assert(twice.messages().drop_first() =~= rest1);
    assert(rest1.drop_first() =~= rest2);

    let pre2 = "Error: "@ + desc + "\n"@ + "\nContext:\n"@ + "\t- "@;
    let post2 = "\n"@ + context_lines(rest1);
    assert(render_spec(twice) =~= pre2 + m2@ + post2);
    lemma_concat_contains_middle(pre2, m2@, post2);

    let pre1 = pre2 + m2@ + "\n"@ + "\t- "@;
    let post1 = "\n"@ + context_lines(rest2);
    assert(render_spec(twice) =~= pre1 + m1@ + post1);
    lemma_concat_contains_middle(pre1, m1@, post1);
}

/// Annotation for fallible carriers: wraps the failure (or absence) held by
/// `self` in a new [`LlmErrorType::Context`] node, and passes a success
/// through untouched.
pub trait WithContext<T>: Sized {
    /// Whether `self` carries a failure or an absence rather than a value.
    spec fn is_failure(self) -> bool;

    /// The value carried when `self` is not a failure.
    spec fn success_value(self) -> T;

    /// What the annotated error looks like when the annotation message is
    /// `message`.
    spec fn annotated(self, message: String, e: LlmError) -> bool;

    /// Annotates a failure with `message`; a success passes through.
    fn context(self, message: String) -> (r: Result<T, LlmError>)
        ensures
            !self.is_failure() ==> (r matches Ok(v) && v == self.success_value()),
            self.is_failure() ==> (r matches Err(e) && self.annotated(message, e)),
    ;

    /// Annotates a failure with the message the closure produces; the closure
    /// runs only on the failure path.
    fn with_context<F: FnOnce() -> String>(self, context_fn: F) -> (r: Result<T, LlmError>)
        requires
            self.is_failure() ==> context_fn.requires(()),
        ensures
            !self.is_failure() ==> (r matches Ok(v) && v == self.success_value()),
            self.is_failure() ==> (r matches Err(e) && exists|message: String|
                context_fn.ensures((), message) && self.annotated(message, e)),
    ;
}

impl<T> WithContext<T> for Result<T, LlmError> {
    open spec fn is_failure(self) -> bool {
        self is Err
    }

    open spec fn success_value(self) -> T {
        self->Ok_0
    }

    open spec fn annotated(self, message: String, e: LlmError) -> bool {
        e.error_type == (LlmErrorType::Context {
            message,
            source: Box::new(self->Err_0.error_type),
        })
    }

    fn context(self, message: String) -> (r: Result<T, LlmError>) {
        match self {
            Ok(v) => Ok(v),
            Err(error) => Err(error.add_context(message)),
        }
    }

    fn with_context<F: FnOnce() -> String>(self, context_fn: F) -> (r: Result<T, LlmError>) {
        let ghost orig = self;
        match self {
            Ok(v) => Ok(v),
            Err(error) => {
                let message = context_fn();
                let ghost m = message;
                let annotated = Err(error.add_context(message));
                proof {
                    assert(context_fn.ensures((), m) && orig.annotated(m, annotated->Err_0));
                }
                annotated
            },
        }
    }
}

impl<T> WithContext<T> for Result<T, LlmErrorType> {
    open spec fn is_failure(self) -> bool {
        self is Err
    }

    open spec fn success_value(self) -> T {
        self->Ok_0
    }

    /// A bare failure kind is first lifted into an error value, then
    /// annotated.
    open spec fn annotated(self, message: String, e: LlmError) -> bool {
        e.error_type == (LlmErrorType::Context {
            message,
            source: Box::new(self->Err_0),
        })
    }

    fn context(self, message: String) -> (r: Result<T, LlmError>) {
        match self {
            Ok(v) => Ok(v),
            Err(error_type) => Err(LlmError::new_context(message, Box::new(error_type))),
        }
    }

    fn with_context<F: FnOnce() -> String>(self, context_fn: F) -> (r: Result<T, LlmError>) {
        let ghost orig = self;
        match self {
            Ok(v) => Ok(v),
            Err(error_type) => {
                let message = context_fn();
                let ghost m = message;
                let annotated = Err(LlmError::new_context(message, Box::new(error_type)));
                proof {
                    assert(context_fn.ensures((), m) && orig.annotated(m, annotated->Err_0));
                }
                annotated
            },
        }
    }
}

impl<T> WithContext<T> for Option<T> {
    open spec fn is_failure(self) -> bool {
        self is None
    }

    open spec fn success_value(self) -> T {
        self->0
    }

    /// An absence is annotated by synthesizing an [`LlmErrorType::Empty`]
    /// leaf as the wrapped cause.
    open spec fn annotated(self, message: String, e: LlmError) -> bool {
        &&& e.error_type matches LlmErrorType::Context { message: m, source }
        &&& m == message
        &&& *source matches LlmErrorType::Empty { value, expected }
        &&& value@ == "None"@
        &&& expected@ == Seq::<String>::empty()
    }

    fn context(self, message: String) -> (r: Result<T, LlmError>) {
        match self {
            Some(v) => Ok(v),
            None => {
                let empty = LlmErrorType::Empty {
                    value: String::from_str("None"),
                    expected: Vec::new(),
                };
                Err(LlmError::new_context(message, Box::new(empty)))
            },
        }
    }

    fn with_context<F: FnOnce() -> String>(self, context_fn: F) -> (r: Result<T, LlmError>) {
        let ghost orig = self;
        match self {
            Some(v) => Ok(v),
            None => {
                let message = context_fn();
                let ghost m = message;
                let empty = LlmErrorType::Empty {
                    value: String::from_str("None"),
                    expected: Vec::new(),
                };
                let annotated = Err(LlmError::new_context(message, Box::new(empty)));
                proof {
                    assert(context_fn.ensures((), m) && orig.annotated(m, annotated->Err_0));
                }
                annotated
            },
        }
    }
}

} // verus!
