//! The native buffer interchange protocol (`__hurray_buffer__` / `from_hurray_buffer`)
//! and the capsule life cycle it shares with DLPack.
//!
//! A fresh capsule carries a list of buffers, one per descriptor buffer-table row, in
//! order. A consumer checks the capsule's name and the ABI version, renames it to the
//! "used" name, reads every buffer and destroys the list; the capsule's finalizer
//! destroys the list only of a capsule still bearing its fresh name. So the list is
//! destroyed exactly once whatever happens: consumed then collected, or collected
//! unconsumed. The same holds of DLPack capsules (`dltensor_versioned`).

use vstd::prelude::*;
use crate::errors::ErrorClass;
use crate::text::str_eq;

verus! {

/// The name of a fresh native buffer capsule.
pub open spec fn spec_fresh_name() -> Seq<char> {
    "hurray_buffer"@
}

/// The name of a consumed native buffer capsule.
pub open spec fn spec_used_name() -> Seq<char> {
    "used_hurray_buffer"@
}

/// `"hurray_buffer"`.
pub fn fresh_capsule_name() -> (r: &'static str)
    ensures
        r@ == spec_fresh_name(),
{
    "hurray_buffer"
}

/// `"used_hurray_buffer"`.
pub fn used_capsule_name() -> (r: &'static str)
    ensures
        r@ == spec_used_name(),
{
    "used_hurray_buffer"
}

/// `"dltensor_versioned"`, the name of a fresh DLPack v1.0 capsule.
pub fn dlpack_capsule_name() -> (r: &'static str)
    ensures
        r@ == "dltensor_versioned"@,
{
    "dltensor_versioned"
}

/// `"used_dltensor_versioned"`, the name of a consumed DLPack v1.0 capsule.
pub fn used_dlpack_capsule_name() -> (r: &'static str)
    ensures
        r@ == "used_dltensor_versioned"@,
{
    "used_dltensor_versioned"
}

/// Why a native buffer capsule could not be produced or consumed.
#[derive(Clone, Copy, Debug, PartialEq, Eq, Structural)]
pub enum NativeBufferError {
    /// The object has no `__hurray_buffer__` method.
    NoProtocol,
    /// The capsule was already consumed.
    AlreadyConsumed,
    /// The object is not a fresh `"hurray_buffer"` capsule.
    WrongCapsule,
    /// The capsule has no context.
    Malformed,
    /// Producer and consumer were built against different ABI versions.
    AbiMismatch { producer: u32, consumer: u32 },
    /// Buffer `index` of the list could not be read.
    BufferUnreadable(u64),
    /// The descriptor bytes the capsule carried failed to decode.
    UndecodableDescriptor,
    /// The capsule carried a different number of buffers than its descriptor declares.
    CountMismatch { carried: u64, declared: u64 },
    /// The capsule carried no buffers at all.
    NoBuffers,
    /// A tensor with no buffers cannot be exported.
    NothingToExport,
    /// The buffers supplied for export disagree in number with the descriptor.
    ExportCountMismatch { declared: u64, supplied: u64 },
}

impl NativeBufferError {
    /// The Python exception each error raises.
    pub fn class(&self) -> (r: ErrorClass)
        ensures
            r == spec_native_error_class(*self),
    {
        match self {
            NativeBufferError::NoProtocol => ErrorClass::Type,
            NativeBufferError::AbiMismatch { .. } => ErrorClass::Unsupported,
            NativeBufferError::CountMismatch { .. }
            | NativeBufferError::ExportCountMismatch { .. }
            | NativeBufferError::UndecodableDescriptor => ErrorClass::InvalidDescriptor,
            _ => ErrorClass::Buffer,
        }
    }
}

/// No protocol is a `TypeError`, an ABI mismatch is unsupported, undecodable
/// descriptor bytes and a count disagreement are descriptor errors, and every other
/// capsule fault is a `BufferError`.
pub open spec fn spec_native_error_class(e: NativeBufferError) -> ErrorClass {
    match e {
        NativeBufferError::NoProtocol => ErrorClass::Type,
        NativeBufferError::AbiMismatch { .. } => ErrorClass::Unsupported,
        NativeBufferError::CountMismatch { .. }
        | NativeBufferError::ExportCountMismatch { .. }
        | NativeBufferError::UndecodableDescriptor => ErrorClass::InvalidDescriptor,
        _ => ErrorClass::Buffer,
    }
}

/// Producer check: at least one buffer, and exactly as many as the descriptor declares.
pub fn check_export(supplied: u64, declared: u64) -> (r: Result<(), NativeBufferError>)
    ensures
        r == (if supplied == 0 {
            Err::<(), NativeBufferError>(NativeBufferError::NothingToExport)
        } else if supplied != declared {
            Err(NativeBufferError::ExportCountMismatch { declared, supplied })
        } else {
            Ok(())
        }),
{
    if supplied == 0 {
        return Err(NativeBufferError::NothingToExport);
    }
    if supplied != declared {
        return Err(NativeBufferError::ExportCountMismatch { declared, supplied });
    }
    Ok(())
}

/// The consumer's admission of a capsule: it must be a capsule named `"hurray_buffer"`
/// with a non-null pointer (a used one is reported as consumed), and must carry a
/// context.
pub open spec fn spec_admit(name: Option<Seq<char>>, pointer_null: bool, context_null: bool) -> Result<
    (),
    NativeBufferError,
> {
    if !(name == Some(spec_fresh_name()) && !pointer_null) {
        if name == Some(spec_used_name()) {
            Err(NativeBufferError::AlreadyConsumed)
        } else {
            Err(NativeBufferError::WrongCapsule)
        }
    } else if context_null {
        Err(NativeBufferError::Malformed)
    } else {
        Ok(())
    }
}

/// Admit a capsule given its name (`None` when it is not a capsule) and whether its
/// pointer and context are null.
pub fn admit_capsule(name: Option<&str>, pointer_null: bool, context_null: bool) -> (r: Result<
    (),
    NativeBufferError,
>)
    ensures
        r == spec_admit(
            match name {
                Some(n) => Some(n@),
                None => None,
            },
            pointer_null,
            context_null,
        ),
{
    let fresh = match name {
        Some(n) => str_eq(n, fresh_capsule_name()),
        None => false,
    };
    if !(fresh && !pointer_null) {
        let used = match name {
            Some(n) => str_eq(n, used_capsule_name()),
            None => false,
        };
        if used {
            return Err(NativeBufferError::AlreadyConsumed);
        }
        return Err(NativeBufferError::WrongCapsule);
    }
    if context_null {
        return Err(NativeBufferError::Malformed);
    }
    Ok(())
}

/// The ABI stamp in the capsule must be the consumer's own.
pub fn check_abi(producer: u32, consumer: u32) -> (r: Result<(), NativeBufferError>)
    ensures
        r == (if producer == consumer {
            Ok::<(), NativeBufferError>(())
        } else {
            Err(NativeBufferError::AbiMismatch { producer, consumer })
        }),
{
    if producer != consumer {
        return Err(NativeBufferError::AbiMismatch { producer, consumer });
    }
    Ok(())
}

/// After the payload is taken: the descriptor bytes must have decoded (`declared` is
/// the decoded descriptor's buffer-table length, `None` when decoding failed), and the
/// capsule must carry one buffer per buffer-table row, and at least one.
pub fn check_transported(carried: u64, declared: Option<u64>) -> (r: Result<(), NativeBufferError>)
    ensures
        r == (match declared {
            None => Err::<(), NativeBufferError>(NativeBufferError::UndecodableDescriptor),
            Some(d) => if carried != d {
                Err(NativeBufferError::CountMismatch { carried, declared: d })
            } else if carried == 0 {
                Err(NativeBufferError::NoBuffers)
            } else {
                Ok(())
            },
        }),
{
    let declared = match declared {
        None => return Err(NativeBufferError::UndecodableDescriptor),
        Some(d) => d,
    };
    if carried != declared {
        return Err(NativeBufferError::CountMismatch { carried, declared });
    }
    if carried == 0 {
        return Err(NativeBufferError::NoBuffers);
    }
    Ok(())
}

/// Everything `from_hurray_buffer` checks before it takes the payload, in its order:
/// the protocol method exists, the capsule is admitted, and the ABI stamps agree.
pub fn check_consumable(
    has_protocol: bool,
    name: Option<&str>,
    pointer_null: bool,
    context_null: bool,
    producer_abi: u32,
    consumer_abi: u32,
) -> (r: Result<(), NativeBufferError>)
    ensures
        r == (if !has_protocol {
            Err::<(), NativeBufferError>(NativeBufferError::NoProtocol)
        } else {
            match spec_admit(
                match name {
                    Some(n) => Some(n@),
                    None => None,
                },
                pointer_null,
                context_null,
            ) {
                Err(e) => Err(e),
                Ok(_) => if producer_abi == consumer_abi {
                    Ok(())
                } else {
                    Err(NativeBufferError::AbiMismatch { producer: producer_abi, consumer: consumer_abi })
                },
            }
        }),
{
    if !has_protocol {
        return Err(NativeBufferError::NoProtocol);
    }
    admit_capsule(name, pointer_null, context_null)?;
    check_abi(producer_abi, consumer_abi)
}

// ── Capsule life cycle ───────────────────────────────────────────────────────

/// A capsule's state, as its name records it.
#[derive(Clone, Copy, Debug, PartialEq, Eq, Structural)]
pub enum CapsuleState {
    /// Bearing its fresh name: the capsule still owns its payload.
    Fresh,
    /// Renamed by a consumer, who took the payload and destroyed it.
    Consumed,
}

/// Consuming: a fresh capsule becomes consumed and its payload is destroyed by the
/// consumer; a consumed one is refused and nothing is destroyed. Returns the new state
/// and whether the payload was destroyed.
pub open spec fn spec_consume(s: CapsuleState) -> (CapsuleState, bool) {
    match s {
        CapsuleState::Fresh => (CapsuleState::Consumed, true),
        CapsuleState::Consumed => (CapsuleState::Consumed, false),
    }
}

/// Collecting: the finalizer destroys the payload only of a fresh capsule.
pub open spec fn spec_finalize(s: CapsuleState) -> bool {
    s == CapsuleState::Fresh
}

/// A capsule's life-cycle state machine.
pub struct Capsule {
    state: CapsuleState,
}

impl View for Capsule {
    type V = CapsuleState;

    closed spec fn view(&self) -> CapsuleState {
        self.state
    }
}

impl Capsule {
    /// A freshly produced capsule.
    pub fn new() -> (r: Capsule)
        ensures
            r@ == CapsuleState::Fresh,
    {
        Capsule { state: CapsuleState::Fresh }
    }

    /// A consumer takes the payload: on success it must destroy it; a second consumer
    /// is told the capsule was already consumed.
    pub fn consume(&mut self) -> (r: Result<(), NativeBufferError>)
        ensures
            (final(self)@, r is Ok) == spec_consume(old(self)@),
            r is Err ==> r == Err::<(), NativeBufferError>(NativeBufferError::AlreadyConsumed),
    {
        match self.state {
            CapsuleState::Fresh => {
                self.state = CapsuleState::Consumed;
                Ok(())
            },
            CapsuleState::Consumed => Err(NativeBufferError::AlreadyConsumed),
        }
    }

    /// The finalizer: must it destroy the payload?
    pub fn finalize(self) -> (destroy: bool)
        ensures
            destroy == spec_finalize(self@),
    {
        self.state == CapsuleState::Fresh
    }
}

/// How many times the payload is destroyed when `attempts` consumers try a capsule in
/// state `s` and it is then collected.
pub open spec fn destructions(s: CapsuleState, attempts: nat) -> nat
    decreases attempts,
{
    if attempts == 0 {
        if spec_finalize(s) {
            1
        } else {
            0
        }
    } else {
        let (next, destroyed) = spec_consume(s);
        (if destroyed {
            1nat
        } else {
            0nat
        }) + destructions(next, (attempts - 1) as nat)
    }
}

/// However many consumers try a fresh capsule before it is collected, its payload is
/// destroyed exactly once.
pub proof fn lemma_payload_destroyed_once(attempts: nat)
    ensures
        destructions(CapsuleState::Fresh, attempts) == 1,
{
    if attempts > 0 {
        lemma_consumed_never_destroys((attempts - 1) as nat);
    }
}

/// Once consumed, neither a later consumer nor the finalizer destroys anything.
pub proof fn lemma_consumed_never_destroys(attempts: nat)
    ensures
        destructions(CapsuleState::Consumed, attempts) == 0,
    decreases attempts,
{
    if attempts > 0 {
        lemma_consumed_never_destroys((attempts - 1) as nat);
    }
}

} // verus!
