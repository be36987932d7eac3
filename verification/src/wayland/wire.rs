use vstd::prelude::*;

use crate::wayland::ArgKind;
use crate::wayland::ObjectId;
use crate::wayland::event::Arg;

verus! {

/// One native tagged argument slot, the fixed boundary with the transport:
/// each `ArgKind` maps one-to-one onto a slot variant.
#[derive(Clone, Debug)]
pub enum NativeArg {
    Int(i32),
    Uint(u32),
    Fixed(i32),
    /// A nul-terminated string pointer; `None` is the null pointer.
    Str(Option<String>),
    /// A length-prefixed byte array.
    Array(Vec<u8>),
    /// A pointer to a proxy, by its arena handle; `None` is the null object.
    Object(Option<usize>),
    /// The wire id slot of a `new-id` argument (0 until the transport
    /// assigns one).
    NewId(u32),
    Fd(i32),
}

/// One marshalled request as handed to the native transport: the sender's
/// wire id, the opcode, and the encoded argument slots.
#[derive(Clone, Debug)]
pub struct WireMessage {
    pub sender: u32,
    pub opcode: u16,
    pub args: Vec<NativeArg>,
}

/// Whether an argument value fits an argument shape.
pub open spec fn arg_matches_kind(a: Arg<ObjectId, i32>, k: ArgKind) -> bool {
    match a {
        Arg::Int(_) => k == ArgKind::Int,
        Arg::Uint(_) => k == ArgKind::Uint,
        Arg::Fixed(_) => k == ArgKind::Fixed,
        Arg::Str(s) => exists|nullable: bool| k == ArgKind::Str(nullable) && (s is Some || nullable),
        Arg::Object(_) => exists|nullable: bool| k == ArgKind::Object(nullable),
        Arg::New(_) => k == ArgKind::New,
        Arg::Array(_) => k == ArgKind::Array,
        Arg::Fd(_) => k == ArgKind::Fd,
    }
}

/// How one argument is encoded into a native slot: primitives, strings and
/// arrays by value, object references by their proxy handle, and a `new-id`
/// as the zero slot the transport fills in.
pub open spec fn spec_encode_arg(a: Arg<ObjectId, i32>) -> NativeArg {
    match a {
        Arg::Int(i) => NativeArg::Int(i),
        Arg::Uint(u) => NativeArg::Uint(u),
        Arg::Fixed(f) => NativeArg::Fixed(f),
        Arg::Str(s) => NativeArg::Str(s),
        Arg::Object(o) => NativeArg::Object(o.proxy),
        Arg::New(_) => NativeArg::NewId(0),
        Arg::Array(b) => NativeArg::Array(b),
        Arg::Fd(h) => NativeArg::Fd(h),
    }
}

/// Decode one native slot against a value-carrying shape (everything but
/// `Object` and `New`, which need the proxy arena). `None` is a shape
/// mismatch: a slot whose variant does not fit the declared kind, or an
/// absent string where the shape forbids one.
pub open spec fn spec_decode_value(k: ArgKind, s: NativeArg) -> Option<Arg<ObjectId, i32>> {
    match k {
        ArgKind::Int => match s {
            NativeArg::Int(i) => Some(Arg::Int(i)),
            _ => None,
        },
        ArgKind::Uint => match s {
            NativeArg::Uint(u) => Some(Arg::Uint(u)),
            _ => None,
        },
        ArgKind::Fixed => match s {
            NativeArg::Fixed(f) => Some(Arg::Fixed(f)),
            _ => None,
        },
        ArgKind::Str(nullable) => match s {
            NativeArg::Str(os) => if os is Some || nullable {
                Some(Arg::Str(os))
            } else {
                None
            },
            _ => None,
        },
        ArgKind::Array => match s {
            NativeArg::Array(b) => Some(Arg::Array(b)),
            _ => None,
        },
        ArgKind::Fd => match s {
            NativeArg::Fd(h) => Some(Arg::Fd(h)),
            _ => None,
        },
        ArgKind::Object(_) => None,
        ArgKind::New => None,
    }
}

/// Decoding a value slot that was produced by encoding gives back exactly
/// the argument that was encoded: the value-kind half of the encode/decode
/// round trip (object-carrying kinds go through the proxy arena instead).
pub proof fn lemma_value_roundtrip(a: Arg<ObjectId, i32>, k: ArgKind)
    requires
        arg_matches_kind(a, k),
        k != ArgKind::New,
        !(k matches ArgKind::Object(_)),
    ensures
        spec_decode_value(k, spec_encode_arg(a)) == Some(a),
{
}

/// The list form of the round trip: every position of an argument list that
/// matches a signature of value kinds decodes back to itself.
pub proof fn lemma_value_list_roundtrip(args: Seq<Arg<ObjectId, i32>>, sig: Seq<ArgKind>)
    requires
        args.len() == sig.len(),
        forall|i: int|
            0 <= i < sig.len() ==> #[trigger] arg_matches_kind(args[i], sig[i]) && sig[i]
                != ArgKind::New && !(sig[i] matches ArgKind::Object(_)),
    ensures
        forall|i: int|
            0 <= i < sig.len() ==> spec_decode_value(sig[i], spec_encode_arg(#[trigger] args[i]))
                == Some(args[i]),
{
    assert forall|i: int|
        0 <= i < sig.len() implies spec_decode_value(sig[i], spec_encode_arg(#[trigger] args[i]))
        == Some(args[i]) by {
        lemma_value_roundtrip(args[i], sig[i]);
    }
}

/// The whole argument list of a message, encoded position by position.
pub open spec fn encode_args_view(args: Seq<Arg<ObjectId, i32>>) -> Seq<NativeArg> {
    args.map_values(|a: Arg<ObjectId, i32>| spec_encode_arg(a))
}

/// Executable form of `spec_encode_arg`, used by the outbound marshaler.
pub fn encode_arg(a: Arg<ObjectId, i32>) -> (r: NativeArg)
    ensures
        r == spec_encode_arg(a),
{
    match a {
        Arg::Int(i) => NativeArg::Int(i),
        Arg::Uint(u) => NativeArg::Uint(u),
        Arg::Fixed(f) => NativeArg::Fixed(f),
        Arg::Str(s) => NativeArg::Str(s),
        Arg::Object(o) => NativeArg::Object(o.proxy),
        Arg::New(_) => NativeArg::NewId(0),
        Arg::Array(b) => NativeArg::Array(b),
        Arg::Fd(h) => NativeArg::Fd(h),
    }
}

/// Executable form of `spec_decode_value`, used by the dispatcher for the
/// value-carrying kinds.
pub fn decode_value(k: ArgKind, s: NativeArg) -> (r: Option<Arg<ObjectId, i32>>)
    ensures
        r == spec_decode_value(k, s),
{
    match k {
        ArgKind::Int => match s {
            NativeArg::Int(i) => Some(Arg::Int(i)),
            _ => None,
        },
        ArgKind::Uint => match s {
            NativeArg::Uint(u) => Some(Arg::Uint(u)),
            _ => None,
        },
        ArgKind::Fixed => match s {
            NativeArg::Fixed(f) => Some(Arg::Fixed(f)),
            _ => None,
        },
        ArgKind::Str(nullable) => match s {
            NativeArg::Str(os) => {
                if os.is_some() || nullable {
                    Some(Arg::Str(os))
                } else {
                    None
                }
            },
            _ => None,
        },
        ArgKind::Array => match s {
            NativeArg::Array(b) => Some(Arg::Array(b)),
            _ => None,
        },
        ArgKind::Fd => match s {
            NativeArg::Fd(h) => Some(Arg::Fd(h)),
            _ => None,
        },
        ArgKind::Object(_) => None,
        ArgKind::New => None,
    }
}

} // verus!
