//! The rules by which the `#[process]` attribute accepts an impl block: the
//! shape a handler must have, and the attribute's own arguments.
use vstd::prelude::*;

verus! {

/// The message argument of a handler.
#[derive(Debug, Clone, Copy)]
pub enum MessageArg {
    Missing,
    /// A receiver where the message should be.
    Untyped,
    Typed,
}

/// The generic arguments of the return type's last path segment.
#[derive(Debug, Clone, Copy)]
pub enum Generics {
    Absent,
    Parenthesized,
    AngleBracketed(usize),
}

/// The return type of a handler.
#[derive(Debug, Clone, Copy)]
pub enum Output {
    /// No return type written.
    Default,
    /// A type that is not a path.
    NotAPath,
    /// A path; `is_reply` tells whether its last segment is `Reply`.
    Path { has_segments: bool, is_reply: bool, generics: Generics },
}

/// What the attribute reads of a `#[handler]` method's signature.
#[derive(Debug, Clone, Copy)]
pub struct HandlerShape {
    pub has_first_arg: bool,
    pub message: MessageArg,
    pub output: Output,
}

/// The error for a handler of this shape, or none when it is accepted: a
/// receiver, a typed message, and a return type `Reply<Ok, Err>`.
pub open spec fn handler_error(shape: HandlerShape) -> Option<&'static str> {
    if !shape.has_first_arg {
        Some("Expected 'self' as first arg")
    } else {
        match shape.message {
            MessageArg::Missing => Some("Expected a message argument"),
            MessageArg::Untyped => Some("Expected a typed argument for the message"),
            MessageArg::Typed => match shape.output {
                Output::Default => Some("Expected Result type for return value"),
                Output::NotAPath => Some("Expected Result type for return value"),
                Output::Path { has_segments, is_reply, generics } => if !has_segments {
                    Some("Expected Result type for return value")
                } else if !is_reply {
                    Some("Expected Reply type in handler return value")
                } else {
                    match generics {
                        Generics::AngleBracketed(n) => if n != 2 {
                            Some("Expected two generics for Reply type, Ok type and Err type")
                        } else {
                            None
                        },
                        _ => Some("Result return type must have its generics declared."),
                    }
                },
            },
        }
    }
}

/// Checks a handler's signature.
pub fn check_handler(shape: HandlerShape) -> (r: Result<(), &'static str>)
    ensures
        match handler_error(shape) {
            None => r is Ok,
            Some(msg) => r == Err::<(), &'static str>(msg),
        },
{
    if !shape.has_first_arg {
        return Err("Expected 'self' as first arg");
    }
    match shape.message {
        MessageArg::Missing => Err("Expected a message argument"),
        MessageArg::Untyped => Err("Expected a typed argument for the message"),
        MessageArg::Typed => match shape.output {
            Output::Default => Err("Expected Result type for return value"),
            Output::NotAPath => Err("Expected Result type for return value"),
            Output::Path { has_segments, is_reply, generics } => {
                if !has_segments {
                    Err("Expected Result type for return value")
                } else if !is_reply {
                    Err("Expected Reply type in handler return value")
                } else {
                    match generics {
                        Generics::AngleBracketed(n) => {
                            if n != 2 {
                                Err("Expected two generics for Reply type, Ok type and Err type")
                            } else {
                                Ok(())
                            }
                        },
                        _ => Err("Result return type must have its generics declared."),
                    }
                }
            },
        },
    }
}

/// A handler is called with its context when one of its arguments is a
/// reference to a path with a segment `Ctx` whose angle-bracketed arguments
/// include `Self`; `args[i]` lists, for the `i`-th argument when it is such a
/// reference, each segment as (is it `Ctx`, do its angle-bracketed arguments include `Self`).
pub open spec fn takes_ctx(args: Seq<Option<Seq<(bool, bool)>>>) -> bool {
    exists|i: int, j: int|
        0 <= i < args.len() && args[i] is Some && 0 <= j < args[i]->Some_0.len() && #[trigger] args[i]->Some_0[j]
            == (true, true)
}

/// The arguments' segments as sequences.
pub open spec fn arg_segments(args: Seq<Option<Vec<(bool, bool)>>>) -> Seq<Option<Seq<(bool, bool)>>> {
    args.map_values(|a: Option<Vec<(bool, bool)>>| match a {
        Some(v) => Some(v@),
        None => None,
    })
}

/// Whether a handler takes its context (see [`takes_ctx`]).
pub fn handler_takes_ctx(args: &Vec<Option<Vec<(bool, bool)>>>) -> (r: bool)
    ensures
        r == takes_ctx(arg_segments(args@)),
{
    let ghost view = arg_segments(args@);
    let mut i: usize = 0;
    while i < args.len()
        invariant
            i <= args@.len(),
            view == arg_segments(args@),
            forall|k: int, j: int|
                0 <= k < i && view[k] is Some && 0 <= j < view[k]->Some_0.len() ==> #[trigger] view[k]->Some_0[j]
                    != (true, true),
        decreases args@.len() - i,
    {
        match &args[i] {
            Some(segs) => {
                let mut j: usize = 0;
                while j < segs.len()
                    invariant
                        j <= segs@.len(),
                        i < args@.len(),
                        view.len() == args@.len(),
                        view == arg_segments(args@),
                        view[i as int] == Some(segs@),
                        forall|m: int| 0 <= m < j ==> #[trigger] segs@[m] != (true, true),
                    decreases segs@.len() - j,
                {
                    if segs[j].0 && segs[j].1 {
                        assert(view[i as int] is Some);
                        assert(view[i as int]->Some_0 == segs@);
                        assert(view[i as int]->Some_0[j as int] == (true, true));
                        assert(takes_ctx(view));
                        return true;
                    }
                    j = j + 1;
                }
            },
            None => {},
        }
        i = i + 1;
    }
    false
}

/// The attribute's arguments: nothing, or `Error = <type>`.
#[derive(Debug, Clone, Copy)]
pub enum ArgsShape {
    Empty,
    /// A keyword, `=` and what follows it: `keyword_is_error` tells whether the
    /// keyword is `Error`, `starts_type` whether a `<` or an identifier follows.
    Assign { keyword_is_error: bool, starts_type: bool },
}

/// How the attribute's arguments read.
#[derive(Debug, Clone, Copy)]
pub enum ArgsReading {
    /// No error type given: it is `()`.
    DefaultError,
    /// Parse the error type that follows.
    ErrorType,
    /// The keyword is not `Error`.
    ExpectedErrorKeyword,
    /// Neither `<` nor an identifier follows the `=`.
    ExpectedType,
}

/// Reads the attribute's arguments.
pub fn read_process_args(shape: ArgsShape) -> (r: ArgsReading)
    ensures
        match shape {
            ArgsShape::Empty => r is DefaultError,
            ArgsShape::Assign { keyword_is_error, starts_type } => if !keyword_is_error {
                r is ExpectedErrorKeyword
            } else if !starts_type {
                r is ExpectedType
            } else {
                r is ErrorType
            },
        },
{
    match shape {
        ArgsShape::Empty => ArgsReading::DefaultError,
        ArgsShape::Assign { keyword_is_error, starts_type } => {
            if !keyword_is_error {
                ArgsReading::ExpectedErrorKeyword
            } else if !starts_type {
                ArgsReading::ExpectedType
            } else {
                ArgsReading::ErrorType
            }
        },
    }
}

/// The position of the first method carrying a lifecycle attribute
/// (`on_init`, `on_exit`, `subscriptions`): `marked[i]` tells of the `i`-th method.
pub fn first_marked(marked: &Vec<bool>) -> (r: Option<usize>)
    ensures
        match r {
            Some(i) => i < marked@.len() && marked@[i as int] && forall|j: int| 0 <= j < i ==> !#[trigger] marked@[j],
            None => forall|j: int| 0 <= j < marked@.len() ==> !#[trigger] marked@[j],
        },
{
    let mut i: usize = 0;
    while i < marked.len()
        invariant
            i <= marked@.len(),
            forall|j: int| 0 <= j < i ==> !#[trigger] marked@[j],
        decreases marked@.len() - i,
    {
        if marked[i] {
            return Some(i);
        }
        i = i + 1;
    }
    None
}

} // verus!
