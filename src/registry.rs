//! The fixed protocol registry and the method arity catalog.
use vstd::prelude::*;

use crate::error::GenError;
use crate::error::ErrorView;

verus! {

/// The closed set of protocols a block may claim.
#[derive(Debug, Clone, Copy, PartialEq, Eq, Structural)]
pub enum ProtocolKind {
    Object,
    Async,
    Mapping,
    Iter,
    Buffer,
    Context,
    Descr,
    GC,
    Sequence,
    Number,
}

/// The role of one adapted argument, used to name it in generated code.
#[derive(Debug, Clone, Copy, PartialEq, Eq, Structural)]
pub enum ArgHint {
    Key,
    Value,
}

/// The calling shape of a recognized method.
#[derive(Debug, Clone, Copy, PartialEq, Eq, Structural)]
pub enum MethodArity {
    /// No argument besides the receiver.
    NoArg,
    /// One argument besides the receiver.
    OneArg(ArgHint),
    /// Two arguments besides the receiver.
    TwoArg(ArgHint, ArgHint),
    /// No argument; the result is coerced to an unsigned length.
    LengthQuery,
    /// Wrapped as an ordinary method with its declared parameter list.
    General,
}

/// The protocol whose trait carries the name `s`, if any.
pub open spec fn protocol_of_name(s: Seq<char>) -> Option<ProtocolKind> {
    if s == "PyObjectProtocol"@ {
        Some(ProtocolKind::Object)
    } else if s == "PyAsyncProtocol"@ {
        Some(ProtocolKind::Async)
    } else if s == "PyMappingProtocol"@ {
        Some(ProtocolKind::Mapping)
    } else if s == "PyIterProtocol"@ {
        Some(ProtocolKind::Iter)
    } else if s == "PyBufferProtocol"@ {
        Some(ProtocolKind::Buffer)
    } else if s == "PyContextProtocol"@ {
        Some(ProtocolKind::Context)
    } else if s == "PyDescrProtocol"@ {
        Some(ProtocolKind::Descr)
    } else if s == "PyGCProtocol"@ {
        Some(ProtocolKind::GC)
    } else if s == "PySequenceProtocol"@ {
        Some(ProtocolKind::Sequence)
    } else if s == "PyNumberProtocol"@ {
        Some(ProtocolKind::Number)
    } else {
        None
    }
}

/// The numeric-protocol names that are wrapped as ordinary methods.
pub open spec fn is_number_method(m: Seq<char>) -> bool {
    m == "__radd__"@ || m == "__rsub__"@ || m == "__rmul__"@ || m == "__rmatmul__"@
        || m == "__rtruediv__"@ || m == "__rfloordiv__"@ || m == "__rmod__"@
        || m == "__rdivmod__"@ || m == "__rpow__"@ || m == "__rlshift__"@
        || m == "__rrshift__"@ || m == "__rand__"@ || m == "__rxor__"@ || m == "__ror__"@
        || m == "__complex__"@ || m == "__round__"@
}

/// The catalog entry of method `m` under protocol `p`; `None` when `p` does not
/// recognize `m`.
pub open spec fn spec_arity_of(p: ProtocolKind, m: Seq<char>) -> Option<MethodArity> {
    match p {
        ProtocolKind::Async => {
            if m == "__await__"@ || m == "__aiter__"@ || m == "__anext__"@ {
                Some(MethodArity::NoArg)
            } else {
                None
            }
        },
        ProtocolKind::Iter => {
            if m == "__iter__"@ || m == "__next__"@ {
                Some(MethodArity::NoArg)
            } else {
                None
            }
        },
        ProtocolKind::Mapping => {
            if m == "__len__"@ {
                Some(MethodArity::LengthQuery)
            } else if m == "__getitem__"@ {
                Some(MethodArity::OneArg(ArgHint::Key))
            } else if m == "__setitem__"@ {
                Some(MethodArity::TwoArg(ArgHint::Key, ArgHint::Value))
            } else if m == "__delitem__"@ {
                Some(MethodArity::OneArg(ArgHint::Key))
            } else {
                None
            }
        },
        ProtocolKind::Context => {
            if m == "__enter__"@ || m == "__exit__"@ {
                Some(MethodArity::General)
            } else {
                None
            }
        },
        ProtocolKind::Descr => {
            if m == "__delete__"@ || m == "__set_name__"@ {
                Some(MethodArity::General)
            } else {
                None
            }
        },
        ProtocolKind::Number => {
            if is_number_method(m) {
                Some(MethodArity::General)
            } else {
                None
            }
        },
        _ => None,
    }
}

/// Whether protocol `p` recognizes method `m`.
pub open spec fn recognizes(p: ProtocolKind, m: Seq<char>) -> bool {
    spec_arity_of(p, m) is Some
}

/// The number of arguments besides the receiver that `a` demands; `None` when
/// any declared parameter list is accepted.
pub open spec fn required_args(a: MethodArity) -> Option<nat> {
    match a {
        MethodArity::NoArg => Some(0),
        MethodArity::OneArg(_) => Some(1),
        MethodArity::TwoArg(_, _) => Some(2),
        MethodArity::LengthQuery => Some(0),
        MethodArity::General => None,
    }
}

/// Whether a method declaring `n` arguments besides the receiver fits `a`.
pub open spec fn arity_fits(a: MethodArity, n: nat) -> bool {
    match required_args(a) {
        Some(k) => k == n,
        None => true,
    }
}

/// The short identity of a protocol, used in derived symbols.
pub open spec fn spec_short_name(p: ProtocolKind) -> Seq<char> {
    match p {
        ProtocolKind::Object => "Object"@,
        ProtocolKind::Async => "Async"@,
        ProtocolKind::Mapping => "Mapping"@,
        ProtocolKind::Iter => "Iter"@,
        ProtocolKind::Buffer => "Buffer"@,
        ProtocolKind::Context => "Context"@,
        ProtocolKind::Descr => "Descr"@,
        ProtocolKind::GC => "GC"@,
        ProtocolKind::Sequence => "Sequence"@,
        ProtocolKind::Number => "Number"@,
    }
}

/// The host interface that a binding for `p` implements.
pub open spec fn spec_target_trait(p: ProtocolKind) -> Seq<char> {
    match p {
        ProtocolKind::Object => "class::basic::PyObjectProtocolImpl"@,
        ProtocolKind::Async => "class::async::PyAsyncProtocolImpl"@,
        ProtocolKind::Mapping => "class::mapping::PyMappingProtocolImpl"@,
        ProtocolKind::Iter => "class::iter::PyIterProtocolImpl"@,
        ProtocolKind::Buffer => "class::buffer::PyBufferProtocolImpl"@,
        ProtocolKind::Context => "class::context::PyContextProtocolImpl"@,
        ProtocolKind::Descr => "class::descr::PyDescrProtocolImpl"@,
        ProtocolKind::GC => "class::gc::PyGCProtocolImpl"@,
        ProtocolKind::Sequence => "class::mapping::PySequenceProtocolImpl"@,
        ProtocolKind::Number => "class::number::PyNumberProtocolImpl"@,
    }
}

/// Whether `name` holds exactly the characters of `lit`.
pub fn name_is(name: &String, lit: &str) -> (r: bool)
    ensures
        r == (name@ == lit@),
{
    let s = String::from_str(lit);
    name.eq(&s)
}

/// Looks up the protocol named by `claimed`.
pub fn resolve_protocol(claimed: &String) -> (r: Result<ProtocolKind, GenError>)
    ensures
        match r {
            Ok(p) => protocol_of_name(claimed@) == Some(p),
            Err(e) => protocol_of_name(claimed@) is None
                && e@ == (ErrorView::UnknownProtocol { claimed: claimed@ }),
        },
{
    if name_is(claimed, "PyObjectProtocol") {
        Ok(ProtocolKind::Object)
    } else if name_is(claimed, "PyAsyncProtocol") {
        Ok(ProtocolKind::Async)
    } else if name_is(claimed, "PyMappingProtocol") {
        Ok(ProtocolKind::Mapping)
    } else if name_is(claimed, "PyIterProtocol") {
        Ok(ProtocolKind::Iter)
    } else if name_is(claimed, "PyBufferProtocol") {
        Ok(ProtocolKind::Buffer)
    } else if name_is(claimed, "PyContextProtocol") {
        Ok(ProtocolKind::Context)
    } else if name_is(claimed, "PyDescrProtocol") {
        Ok(ProtocolKind::Descr)
    } else if name_is(claimed, "PyGCProtocol") {
        Ok(ProtocolKind::GC)
    } else if name_is(claimed, "PySequenceProtocol") {
        Ok(ProtocolKind::Sequence)
    } else if name_is(claimed, "PyNumberProtocol") {
        Ok(ProtocolKind::Number)
    } else {
        Err(GenError::UnknownProtocol { claimed: claimed.clone() })
    }
}

/// The catalog entry of `name` under protocol `p`; `None` routes the method to
/// the unmapped bucket.
pub fn arity_of(p: ProtocolKind, name: &String) -> (r: Option<MethodArity>)
    ensures
        r == spec_arity_of(p, name@),
{
    match p {
        ProtocolKind::Async => {
            if name_is(name, "__await__") || name_is(name, "__aiter__") || name_is(name, "__anext__") {
                Some(MethodArity::NoArg)
            } else {
                None
            }
        },
        ProtocolKind::Iter => {
            if name_is(name, "__iter__") || name_is(name, "__next__") {
                Some(MethodArity::NoArg)
            } else {
                None
            }
        },
        ProtocolKind::Mapping => {
            if name_is(name, "__len__") {
                Some(MethodArity::LengthQuery)
            } else if name_is(name, "__getitem__") {
                Some(MethodArity::OneArg(ArgHint::Key))
            } else if name_is(name, "__setitem__") {
                Some(MethodArity::TwoArg(ArgHint::Key, ArgHint::Value))
            } else if name_is(name, "__delitem__") {
                Some(MethodArity::OneArg(ArgHint::Key))
            } else {
                None
            }
        },
        ProtocolKind::Context => {
            if name_is(name, "__enter__") || name_is(name, "__exit__") {
                Some(MethodArity::General)
            } else {
                None
            }
        },
        ProtocolKind::Descr => {
            if name_is(name, "__delete__") || name_is(name, "__set_name__") {
                Some(MethodArity::General)
            } else {
                None
            }
        },
        ProtocolKind::Number => {
            if name_is(name, "__radd__")
            || name_is(name, "__rsub__")
            || name_is(name, "__rmul__")
            || name_is(name, "__rmatmul__")
            || name_is(name, "__rtruediv__")
            || name_is(name, "__rfloordiv__")
            || name_is(name, "__rmod__")
            || name_is(name, "__rdivmod__")
            || name_is(name, "__rpow__")
            || name_is(name, "__rlshift__")
            || name_is(name, "__rrshift__")
            || name_is(name, "__rand__")
            || name_is(name, "__rxor__")
            || name_is(name, "__ror__")
            || name_is(name, "__complex__")
            || name_is(name, "__round__") {
                Some(MethodArity::General)
            } else {
                None
            }
        },
        _ => None,
    }
}

/// Whether a method declaring `found` arguments besides the receiver fits `a`.
pub fn check_arity(a: MethodArity, found: usize) -> (r: bool)
    ensures
        r == arity_fits(a, found as nat),
{
    match a {
        MethodArity::NoArg => found == 0,
        MethodArity::OneArg(_) => found == 1,
        MethodArity::TwoArg(_, _) => found == 2,
        MethodArity::LengthQuery => found == 0,
        MethodArity::General => true,
    }
}

/// The short identity of `p`.
pub fn short_name(p: ProtocolKind) -> (r: &'static str)
    ensures
        r@ == spec_short_name(p),
{
    match p {
        ProtocolKind::Object => "Object",
        ProtocolKind::Async => "Async",
        ProtocolKind::Mapping => "Mapping",
        ProtocolKind::Iter => "Iter",
        ProtocolKind::Buffer => "Buffer",
        ProtocolKind::Context => "Context",
        ProtocolKind::Descr => "Descr",
        ProtocolKind::GC => "GC",
        ProtocolKind::Sequence => "Sequence",
        ProtocolKind::Number => "Number",
    }
}

/// The host interface that a binding for `p` implements.
pub fn target_trait(p: ProtocolKind) -> (r: &'static str)
    ensures
        r@ == spec_target_trait(p),
{
    match p {
        ProtocolKind::Object => "class::basic::PyObjectProtocolImpl",
        ProtocolKind::Async => "class::async::PyAsyncProtocolImpl",
        ProtocolKind::Mapping => "class::mapping::PyMappingProtocolImpl",
        ProtocolKind::Iter => "class::iter::PyIterProtocolImpl",
        ProtocolKind::Buffer => "class::buffer::PyBufferProtocolImpl",
        ProtocolKind::Context => "class::context::PyContextProtocolImpl",
        ProtocolKind::Descr => "class::descr::PyDescrProtocolImpl",
        ProtocolKind::GC => "class::gc::PyGCProtocolImpl",
        ProtocolKind::Sequence => "class::mapping::PySequenceProtocolImpl",
        ProtocolKind::Number => "class::number::PyNumberProtocolImpl",
    }
}

/// The first character of each short identity; no two protocols share one.
pub open spec fn short_initial(p: ProtocolKind) -> char {
    match p {
        ProtocolKind::Object => 'O',
        ProtocolKind::Async => 'A',
        ProtocolKind::Mapping => 'M',
        ProtocolKind::Iter => 'I',
        ProtocolKind::Buffer => 'B',
        ProtocolKind::Context => 'C',
        ProtocolKind::Descr => 'D',
        ProtocolKind::GC => 'G',
        ProtocolKind::Sequence => 'S',
        ProtocolKind::Number => 'N',
    }
}

/// Each short identity is non-empty and starts with its protocol's initial.
pub proof fn lemma_short_name_initial(p: ProtocolKind)
    ensures
        spec_short_name(p).len() > 0,
        spec_short_name(p)[0] == short_initial(p),
{
    match p {
            ProtocolKind::Object => {
                reveal_strlit("Object");
            },
            ProtocolKind::Async => {
                reveal_strlit("Async");
            },
            ProtocolKind::Mapping => {
                reveal_strlit("Mapping");
            },
            ProtocolKind::Iter => {
                reveal_strlit("Iter");
            },
            ProtocolKind::Buffer => {
                reveal_strlit("Buffer");
            },
            ProtocolKind::Context => {
                reveal_strlit("Context");
            },
            ProtocolKind::Descr => {
                reveal_strlit("Descr");
            },
            ProtocolKind::GC => {
                reveal_strlit("GC");
            },
            ProtocolKind::Sequence => {
                reveal_strlit("Sequence");
            },
            ProtocolKind::Number => {
                reveal_strlit("Number");
            },
    }
}

/// Distinct protocols have distinct short identities.
pub proof fn lemma_short_name_injective(p: ProtocolKind, q: ProtocolKind)
    requires
        spec_short_name(p) == spec_short_name(q),
    ensures
        p == q,
{
    lemma_short_name_initial(p);
    lemma_short_name_initial(q);
}

/// A coarse fingerprint of the names each protocol recognizes: the third
/// character and the length.
pub open spec fn name_fingerprint_fits(p: ProtocolKind, c: char, n: nat) -> bool {
    match p {
        ProtocolKind::Async => c == 'a',
        ProtocolKind::Iter => c == 'i' || c == 'n',
        ProtocolKind::Mapping => c == 'l' || c == 'g' || ((c == 's' || c == 'd') && n == 11),
        ProtocolKind::Context => c == 'e',
        ProtocolKind::Descr => (c == 'd' && n == 10) || (c == 's' && n == 12),
        ProtocolKind::Number => c == 'r' || c == 'c',
        _ => false,
    }
}

proof fn lemma_recognized_fingerprint(p: ProtocolKind, m: Seq<char>)
    requires
        recognizes(p, m),
    ensures
        m.len() > 2,
        name_fingerprint_fits(p, m[2], m.len()),
{
    match p {
        ProtocolKind::Async => {
            reveal_strlit("__await__");
            reveal_strlit("__aiter__");
            reveal_strlit("__anext__");
        },
        ProtocolKind::Iter => {
            reveal_strlit("__iter__");
            reveal_strlit("__next__");
        },
        ProtocolKind::Mapping => {
            reveal_strlit("__len__");
            reveal_strlit("__getitem__");
            reveal_strlit("__setitem__");
            reveal_strlit("__delitem__");
        },
        ProtocolKind::Context => {
            reveal_strlit("__enter__");
            reveal_strlit("__exit__");
        },
        ProtocolKind::Descr => {
            reveal_strlit("__delete__");
            reveal_strlit("__set_name__");
        },
        ProtocolKind::Number => {
            reveal_strlit("__radd__");
            reveal_strlit("__rsub__");
            reveal_strlit("__rmul__");
            reveal_strlit("__rmatmul__");
            reveal_strlit("__rtruediv__");
            reveal_strlit("__rfloordiv__");
            reveal_strlit("__rmod__");
            reveal_strlit("__rdivmod__");
            reveal_strlit("__rpow__");
            reveal_strlit("__rlshift__");
            reveal_strlit("__rrshift__");
            reveal_strlit("__rand__");
            reveal_strlit("__rxor__");
            reveal_strlit("__ror__");
            reveal_strlit("__complex__");
            reveal_strlit("__round__");
        },
        _ => {},
    }
}

/// No method name is recognized by two different protocols.
pub proof fn law_recognized_sets_disjoint(p: ProtocolKind, q: ProtocolKind, m: Seq<char>)
    requires
        p != q,
        recognizes(p, m),
    ensures
        !recognizes(q, m),
{
    lemma_recognized_fingerprint(p, m);
    if recognizes(q, m) {
        lemma_recognized_fingerprint(q, m);
    }
}

} // verus!
