//! The grab coordinator's decision logic: classifying the platform's answer
//! to a grab or release request, and recording which lock variants of a
//! binding were granted.
//!
//! The requests themselves are display-server calls the embedding makes;
//! their numeric answers and after-the-fact error reports come back here as
//! plain values.  A failed variant is skipped and reported, never fatal: a
//! binding stays reachable through every variant that succeeded.

use vstd::prelude::*;

use vstd::string::StringExecFns;

use crate::registry::{key_of, BindingRegistry, CallbackId};
use crate::text::{dec_string_i32, int_dec_seq};

verus! {

/// The result of one grab attempt at a (code, modifier-variant) pair.
#[derive(Debug, Clone, Copy, PartialEq, Eq, Structural)]
pub enum GrabOutcome {
    /// The interception is installed; only this outcome reaches the
    /// registry.
    Success,
    /// Another client holds the pair.  The server reports this after the
    /// fact, so the embedding constructs it from an error report rather
    /// than from a status code.
    AlreadyGrabbedElsewhere,
    /// The request carried an invalid timestamp.
    InvalidTiming,
    /// The grab target is not viewable.
    TargetNotViewable,
    /// Input is frozen by another grab.
    InputFrozen,
    /// An unclassified status code.
    Unknown(i32),
}

/// How a synchronous grab status code classifies: `1` reports success, and
/// the codes `2` through `4` the documented failures.
pub open spec fn grab_outcome_spec(status: i32) -> GrabOutcome {
    if status == 1 {
        GrabOutcome::Success
    } else if status == 2 {
        GrabOutcome::InvalidTiming
    } else if status == 3 {
        GrabOutcome::TargetNotViewable
    } else if status == 4 {
        GrabOutcome::InputFrozen
    } else {
        GrabOutcome::Unknown(status)
    }
}

/// Classify the status code a grab request returned.
pub fn classify_grab_status(status: i32) -> (g: GrabOutcome)
    ensures
        g == grab_outcome_spec(status),
{
    match status {
        1 => GrabOutcome::Success,
        2 => GrabOutcome::InvalidTiming,
        3 => GrabOutcome::TargetNotViewable,
        4 => GrabOutcome::InputFrozen,
        _ => GrabOutcome::Unknown(status),
    }
}

/// The diagnostic line a grab outcome is logged with; the binding string
/// names the binding a conflicting grab blocked.  Success has no line.
pub open spec fn grab_message_spec(g: GrabOutcome, binding: Seq<char>) -> Seq<char> {
    match g {
        GrabOutcome::Success => Seq::<char>::empty(),
        GrabOutcome::AlreadyGrabbedElsewhere => "Grabbing Keys: Already Grabbed: "@ + binding,
        GrabOutcome::InvalidTiming => "Grabbing Keys: Invalid time"@,
        GrabOutcome::TargetNotViewable => "Grabbing Keys: Not viewable"@,
        GrabOutcome::InputFrozen => "Grabbing Keys: Frozen"@,
        GrabOutcome::Unknown(e) => "Grabbing Keys: Unknown error: "@ + int_dec_seq(e as int),
    }
}

impl GrabOutcome {
    /// The diagnostic line for this outcome.
    pub fn message(&self, binding: &str) -> (m: String)
        ensures
            m@ == grab_message_spec(*self, binding@),
    {
        match self {
            GrabOutcome::Success => String::new(),
            GrabOutcome::AlreadyGrabbedElsewhere => {
                let mut s = "Grabbing Keys: Already Grabbed: ".to_owned();
                s.append(binding);
                s
            },
            GrabOutcome::InvalidTiming => "Grabbing Keys: Invalid time".to_owned(),
            GrabOutcome::TargetNotViewable => "Grabbing Keys: Not viewable".to_owned(),
            GrabOutcome::InputFrozen => "Grabbing Keys: Frozen".to_owned(),
            GrabOutcome::Unknown(e) => {
                let mut s = "Grabbing Keys: Unknown error: ".to_owned();
                let digits = dec_string_i32(*e);
                s.append(digits.as_str());
                s
            },
        }
    }
}

/// The classified answer to a release request.  A release is attempted
/// before every grab so that a stale or foreign grab is undone first; its
/// failure is only logged, never fatal.
#[derive(Debug, Clone, Copy, PartialEq, Eq, Structural)]
pub enum UnGrabKeyError {
    BadAccess,
    BadValue,
    BadWindow,
    Unknown(i32),
}

/// How a release status code classifies.
pub open spec fn ungrab_error_spec(status: i32) -> UnGrabKeyError {
    if status == 1 {
        UnGrabKeyError::BadAccess
    } else if status == 2 {
        UnGrabKeyError::BadValue
    } else if status == 3 {
        UnGrabKeyError::BadWindow
    } else {
        UnGrabKeyError::Unknown(status)
    }
}

/// Classify the status code a release request returned.
pub fn classify_ungrab_status(status: i32) -> (e: UnGrabKeyError)
    ensures
        e == ungrab_error_spec(status),
{
    match status {
        1 => UnGrabKeyError::BadAccess,
        2 => UnGrabKeyError::BadValue,
        3 => UnGrabKeyError::BadWindow,
        _ => UnGrabKeyError::Unknown(status),
    }
}

/// The diagnostic line a release failure is logged with.
pub open spec fn ungrab_message_spec(e: UnGrabKeyError) -> Seq<char> {
    match e {
        UnGrabKeyError::BadAccess => "Ungrabing Keys: BadAccess"@,
        UnGrabKeyError::BadValue => "Ungrabbing Keys: BadValue"@,
        UnGrabKeyError::BadWindow => "Ungrabbing Keys: BadWindow"@,
        UnGrabKeyError::Unknown(e) => "Ungrabbing Keys: Unknown error: "@ + int_dec_seq(e as int),
    }
}

impl UnGrabKeyError {
    /// The diagnostic line for this error.
    pub fn message(&self) -> (m: String)
        ensures
            m@ == ungrab_message_spec(*self),
    {
        match self {
            UnGrabKeyError::BadAccess => "Ungrabing Keys: BadAccess".to_owned(),
            UnGrabKeyError::BadValue => "Ungrabbing Keys: BadValue".to_owned(),
            UnGrabKeyError::BadWindow => "Ungrabbing Keys: BadWindow".to_owned(),
            UnGrabKeyError::Unknown(e) => {
                let mut s = "Ungrabbing Keys: Unknown error: ".to_owned();
                let digits = dec_string_i32(*e);
                s.append(digits.as_str());
                s
            },
        }
    }
}

/// Whether `k` is one of the registry keys that the outcomes grant: the
/// packed pair of `keycode` and a variant whose grab succeeded.
pub open spec fn granted_key(
    keycode: i32,
    variants: Seq<u32>,
    outcomes: Seq<GrabOutcome>,
    k: u64,
) -> bool {
    exists|i: int|
        0 <= i < variants.len() && i < outcomes.len() && outcomes[i] is Success && k == key_of(
            keycode,
            variants[i],
        )
}

/// Record one binding's grab outcomes in the registry: for every lock
/// variant whose grab succeeded, the callback handle is recorded under
/// (`keycode`, variant); every other record is left as it was.
pub fn record_grab_outcomes(
    reg: &mut BindingRegistry,
    keycode: i32,
    variants: &[u32; 4],
    outcomes: &[GrabOutcome; 4],
    cb: CallbackId,
)
    ensures
        forall|k: u64| #[trigger] final(reg)@.contains_key(k) <==> (old(reg)@.contains_key(k)
            || granted_key(keycode, variants@, outcomes@, k)),
        forall|k: u64| granted_key(keycode, variants@, outcomes@, k) ==> final(reg)@[k] == cb,
        forall|k: u64| !granted_key(keycode, variants@, outcomes@, k) && old(reg)@.contains_key(k)
            ==> final(reg)@[k] == old(reg)@[k],
{
    let mut i: usize = 0;
    while i < 4
        invariant
            i <= 4,
            variants@.len() == 4,
            outcomes@.len() == 4,
            forall|k: u64| #[trigger] reg@.contains_key(k) <==> (old(reg)@.contains_key(k)
                || granted_key(keycode, variants@.subrange(0, i as int), outcomes@.subrange(
                0,
                i as int,
            ), k)),
            forall|k: u64| granted_key(keycode, variants@.subrange(0, i as int),
                outcomes@.subrange(0, i as int), k) ==> reg@[k] == cb,
            forall|k: u64| !granted_key(keycode, variants@.subrange(0, i as int),
                outcomes@.subrange(0, i as int), k) && old(reg)@.contains_key(k) ==> reg@[k]
                == old(reg)@[k],
        decreases 4 - i,
    {
        let ghost pre = variants@.subrange(0, i as int);
        let ghost preo = outcomes@.subrange(0, i as int);
        let ghost post = variants@.subrange(0, i as int + 1);
        let ghost posto = outcomes@.subrange(0, i as int + 1);
        let success = match outcomes[i] {
            GrabOutcome::Success => true,
            _ => false,
        };
        if success {
            reg.insert(keycode, variants[i], cb);
        }
        proof {
            assert forall|k: u64| granted_key(keycode, post, posto, k) implies (granted_key(
                keycode,
                pre,
                preo,
                k,
            ) || (outcomes@[i as int] is Success && k == key_of(keycode, variants@[i as int])))
            by {
                let j = choose|j: int|
                    0 <= j < post.len() && j < posto.len() && posto[j] is Success && k == key_of(
                        keycode,
                        post[j],
                    );
                if j < i {
                    assert(granted_key(keycode, pre, preo, k));
                }
            }
            assert forall|k: u64| granted_key(keycode, pre, preo, k) implies granted_key(
                keycode,
                post,
                posto,
                k,
            ) by {
                let j = choose|j: int|
                    0 <= j < pre.len() && j < preo.len() && preo[j] is Success && k == key_of(
                        keycode,
                        pre[j],
                    );
                assert(posto[j] is Success && k == key_of(keycode, post[j]));
            }
            if outcomes@[i as int] is Success {
                assert(post[i as int] == variants@[i as int]);
                assert(posto[i as int] is Success);
                assert(granted_key(keycode, post, posto, key_of(keycode, post[i as int])));
            }
        }
        i = i + 1;
    }
    proof {
        assert(variants@.subrange(0, 4) =~= variants@);
        assert(outcomes@.subrange(0, 4) =~= outcomes@);
    }
}

} // verus!
