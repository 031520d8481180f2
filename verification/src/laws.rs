//! What holds of the operations taken together.
//!
//! Each law speaks of what the operations may return, through `call_ensures`,
//! and is proved from their contracts alone. The arguments of a call are bound
//! to a name first, so that the tuple has the handle's own type.

use vstd::prelude::*;
use core::fmt::Debug;
use crate::base::AnyDebug;
use crate::dynamic::Dynamic;
use crate::send::AnyDebugSend;
use crate::send_sync::AnyDebugSendSync;

verus! {

/// A type test and a downcast by shared reference agree: `is::<T>` returns
/// `true` if and only if `downcast_ref::<T>` on the same handle returns `Some`.
pub proof fn is_agrees_with_downcast_ref<T: AnyDebug>(h: &dyn AnyDebug, b: bool, o: Option<&T>)
    requires
        ({
            let args = (h,);
            &&& call_ensures(<dyn AnyDebug>::is::<T>, args, b)
            &&& call_ensures(<dyn AnyDebug>::downcast_ref::<T>, args, o)
        }),
    ensures
        b <==> o is Some,
{
}

/// A type test and a downcast by exclusive reference agree: `is::<T>` returns
/// `true` if and only if `downcast_mut::<T>` on the same handle returns `Some`.
pub proof fn is_agrees_with_downcast_mut<T: AnyDebug>(
    h: &mut dyn AnyDebug,
    b: bool,
    o: Option<&mut T>,
)
    requires
        ({
            let args = (&*h,);
            call_ensures(<dyn AnyDebug>::is::<T>, args, b)
        }),
        ({
            let args = (h,);
            call_ensures(<dyn AnyDebug>::downcast_mut::<T>, args, o)
        }),
    ensures
        b <==> o is Some,
{
}

/// A type test and an owned downcast agree: `is::<T>` returns `true` if and
/// only if `downcast::<T>` on the same handle returns `Ok`.
pub proof fn is_agrees_with_downcast<T: AnyDebug>(
    h: Box<dyn AnyDebug>,
    b: bool,
    o: Result<Box<T>, Box<dyn AnyDebug>>,
)
    requires
        ({
            let args = (&*h,);
            call_ensures(<dyn AnyDebug>::is::<T>, args, b)
        }),
        ({
            let args = (h,);
            call_ensures(<dyn AnyDebug>::downcast::<T>, args, o)
        }),
    ensures
        b <==> o is Ok,
{
}

/// A handle on a value of another type than `T` is never taken for one on a
/// `T`: the test returns `false` and the downcast by shared reference `None`.
pub proof fn mismatch_is_told<T: AnyDebug>(h: &dyn AnyDebug, b: bool, o: Option<&T>)
    requires
        !h.dynamic().holds::<T>(),
        ({
            let args = (h,);
            &&& call_ensures(<dyn AnyDebug>::is::<T>, args, b)
            &&& call_ensures(<dyn AnyDebug>::downcast_ref::<T>, args, o)
        }),
    ensures
        !b,
        o is None,
{
}

/// A downcast by exclusive reference to another type than the value's returns
/// `None`, and the handle presents afterwards what it did before.
pub proof fn mismatch_leaves_the_value<T: AnyDebug>(h: &mut dyn AnyDebug, o: Option<&mut T>)
    requires
        !h.dynamic().holds::<T>(),
        ({
            let args = (h,);
            call_ensures(<dyn AnyDebug>::downcast_mut::<T>, args, o)
        }),
    ensures
        o is None,
        final(h).dynamic() == old(h).dynamic(),
{
}

/// An owned downcast to another type than the value's returns the handle that
/// it was given.
pub proof fn mismatch_hands_back<T: AnyDebug>(
    h: Box<dyn AnyDebug>,
    o: Result<Box<T>, Box<dyn AnyDebug>>,
)
    requires
        !h.dynamic().holds::<T>(),
        ({
            let args = (h,);
            call_ensures(<dyn AnyDebug>::downcast::<T>, args, o)
        }),
    ensures
        o matches Err(back) && back == h,
{
}

/// Owned round trip: where a handle on the value `t` is downcast to a type
/// that fails, the handle that comes back is the one that went in, and its
/// downcast to the type of `t` returns `t`.
pub proof fn owned_round_trip<W: AnyDebug, R: AnyDebug>(
    h: Box<dyn AnyDebug>,
    t: R,
    first: Result<Box<W>, Box<dyn AnyDebug>>,
    second: Result<Box<R>, Box<dyn AnyDebug>>,
)
    requires
        h.dynamic() == Dynamic::of(t),
        ({
            let args = (h,);
            call_ensures(<dyn AnyDebug>::downcast::<W>, args, first)
        }),
        first is Err,
        ({
            let args = (first->Err_0,);
            call_ensures(<dyn AnyDebug>::downcast::<R>, args, second)
        }),
    ensures
        first->Err_0 == h,
        second matches Ok(value) && *value == t,
{
}

/// Mutation is seen: after a downcast by exclusive reference has succeeded,
/// the handle presents what was last written through the reference, still at
/// the type `T`, and a downcast by shared reference returns that value.
pub proof fn mutation_is_seen<T: AnyDebug>(
    h: &mut dyn AnyDebug,
    o: Option<&mut T>,
    after: Option<&T>,
)
    requires
        ({
            let args = (h,);
            call_ensures(<dyn AnyDebug>::downcast_mut::<T>, args, o)
        }),
        o is Some,
        ({
            let args = (&*final(h),);
            call_ensures(<dyn AnyDebug>::downcast_ref::<T>, args, after)
        }),
    ensures
        final(h).dynamic() == Dynamic::of(*final(o.unwrap())),
        final(h).dynamic().holds::<T>(),
        after == Some(&*final(o.unwrap())),
{
}

/// The three facets present one value alike: a handle of each facet on `t`
/// stands for the same dynamic value.
pub proof fn facets_present_alike<T: 'static + Debug + Send + Sync>(t: T)
    ensures
        ({
            let base: &dyn AnyDebug = &t;
            let send: &dyn AnyDebugSend = &t;
            let send_sync: &dyn AnyDebugSendSync = &t;
            &&& base.dynamic() == Dynamic::of(t)
            &&& send.dynamic() == Dynamic::of(t)
            &&& send_sync.dynamic() == Dynamic::of(t)
        }),
{
}

/// The facets agree on the type test: on handles that stand for the same
/// value, `is::<T>` returns the same.
pub proof fn facets_agree_on_is<T: AnyDebug>(
    base: &dyn AnyDebug,
    send: &dyn AnyDebugSend,
    send_sync: &dyn AnyDebugSendSync,
    of_base: bool,
    of_send: bool,
    of_send_sync: bool,
)
    requires
        base.dynamic() == send.dynamic(),
        base.dynamic() == send_sync.dynamic(),
        ({
            let args = (base,);
            call_ensures(<dyn AnyDebug>::is::<T>, args, of_base)
        }),
        ({
            let args = (send,);
            call_ensures(<dyn AnyDebugSend>::is::<T>, args, of_send)
        }),
        ({
            let args = (send_sync,);
            call_ensures(<dyn AnyDebugSendSync>::is::<T>, args, of_send_sync)
        }),
    ensures
        of_base == of_send,
        of_base == of_send_sync,
{
}

/// The facets agree on the downcast by shared reference: on handles that stand
/// for the same value, `downcast_ref::<T>` returns the same.
pub proof fn facets_agree_on_downcast_ref<T: AnyDebug>(
    base: &dyn AnyDebug,
    send: &dyn AnyDebugSend,
    send_sync: &dyn AnyDebugSendSync,
    of_base: Option<&T>,
    of_send: Option<&T>,
    of_send_sync: Option<&T>,
)
    requires
        base.dynamic() == send.dynamic(),
        base.dynamic() == send_sync.dynamic(),
        ({
            let args = (base,);
            call_ensures(<dyn AnyDebug>::downcast_ref::<T>, args, of_base)
        }),
        ({
            let args = (send,);
            call_ensures(<dyn AnyDebugSend>::downcast_ref::<T>, args, of_send)
        }),
        ({
            let args = (send_sync,);
            call_ensures(<dyn AnyDebugSendSync>::downcast_ref::<T>, args, of_send_sync)
        }),
    ensures
        of_base == of_send,
        of_base == of_send_sync,
{
}

/// The facets agree on the downcast by exclusive reference: on handles that
/// stand for the same value, `downcast_mut::<T>` succeeds on all or on none and
/// gives the same value; where the same is then written through each, the
/// handles stand for the same value afterwards.
pub proof fn facets_agree_on_downcast_mut<T: AnyDebug>(
    base: &mut dyn AnyDebug,
    send: &mut dyn AnyDebugSend,
    send_sync: &mut dyn AnyDebugSendSync,
    of_base: Option<&mut T>,
    of_send: Option<&mut T>,
    of_send_sync: Option<&mut T>,
)
    requires
        base.dynamic() == send.dynamic(),
        base.dynamic() == send_sync.dynamic(),
        ({
            let args = (base,);
            call_ensures(<dyn AnyDebug>::downcast_mut::<T>, args, of_base)
        }),
        ({
            let args = (send,);
            call_ensures(<dyn AnyDebugSend>::downcast_mut::<T>, args, of_send)
        }),
        ({
            let args = (send_sync,);
            call_ensures(<dyn AnyDebugSendSync>::downcast_mut::<T>, args, of_send_sync)
        }),
    ensures
        of_base is Some <==> of_send is Some,
        of_base is Some <==> of_send_sync is Some,
        of_base is Some ==> *of_base.unwrap() == *of_send.unwrap(),
        of_base is Some ==> *of_base.unwrap() == *of_send_sync.unwrap(),
        of_base is Some && *final(of_base.unwrap()) == *final(of_send.unwrap())
            ==> final(base).dynamic() == final(send).dynamic(),
        of_base is Some && *final(of_base.unwrap()) == *final(of_send_sync.unwrap())
            ==> final(base).dynamic() == final(send_sync).dynamic(),
        of_base is None ==> final(base).dynamic() == final(send).dynamic(),
        of_base is None ==> final(base).dynamic() == final(send_sync).dynamic(),
{
}

/// The facets agree on the owned downcast: on handles that stand for the same
/// value, `downcast::<T>` succeeds on all or on none and gives the same value;
/// where it fails, each gives its own handle back.
pub proof fn facets_agree_on_downcast<T: AnyDebug>(
    base: Box<dyn AnyDebug>,
    send: Box<dyn AnyDebugSend>,
    send_sync: Box<dyn AnyDebugSendSync>,
    of_base: Result<Box<T>, Box<dyn AnyDebug>>,
    of_send: Result<Box<T>, Box<dyn AnyDebugSend>>,
    of_send_sync: Result<Box<T>, Box<dyn AnyDebugSendSync>>,
)
    requires
        base.dynamic() == send.dynamic(),
        base.dynamic() == send_sync.dynamic(),
        ({
            let args = (base,);
            call_ensures(<dyn AnyDebug>::downcast::<T>, args, of_base)
        }),
        ({
            let args = (send,);
            call_ensures(<dyn AnyDebugSend>::downcast::<T>, args, of_send)
        }),
        ({
            let args = (send_sync,);
            call_ensures(<dyn AnyDebugSendSync>::downcast::<T>, args, of_send_sync)
        }),
    ensures
        of_base is Ok <==> of_send is Ok,
        of_base is Ok <==> of_send_sync is Ok,
        of_base is Ok ==> of_base->Ok_0 == of_send->Ok_0,
        of_base is Ok ==> of_base->Ok_0 == of_send_sync->Ok_0,
        of_base is Err ==> of_base->Err_0 == base && of_send->Err_0 == send && of_send_sync->Err_0
            == send_sync,
{
}

} // verus!
