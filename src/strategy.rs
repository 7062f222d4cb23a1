use std::rc::Rc;
use std::sync::Arc;
use vstd::prelude::*;

verus! {

/// How a generated payload is held before it is duplicated.
#[derive(Clone, Copy, Debug, PartialEq, Eq, Structural)]
pub enum StrType {
    /// An owned `String`: duplicating it copies every byte.
    StringType,
    /// An `Rc<str>`: duplicating it bumps a plain reference count.
    RcType,
    /// An `Arc<str>`: duplicating it bumps an atomic reference count.
    ArcType,
}

/// A payload held under one of the three strategies.
#[derive(Debug)]
pub enum Handle {
    Owned(String),
    Shared(Rc<str>),
    Atomic(Arc<str>),
}

/// The strategy that a handle was made under.
pub open spec fn strategy_of(h: Handle) -> StrType {
    match h {
        Handle::Owned(_) => StrType::StringType,
        Handle::Shared(_) => StrType::RcType,
        Handle::Atomic(_) => StrType::ArcType,
    }
}

/// The characters that a handle reads as.
pub open spec fn text_of(h: Handle) -> Seq<char> {
    match h {
        Handle::Owned(s) => s@,
        Handle::Shared(r) => (*r)@,
        Handle::Atomic(a) => (*a)@,
    }
}

/// Relies on `From<String> for Rc<str>`: the new allocation holds the same text.
#[verifier::external_body]
fn rc_from_string(s: String) -> (r: Rc<str>)
    ensures
        (*r)@ == s@,
{
    Rc::from(s)
}

/// Relies on `From<String> for Arc<str>`: the new allocation holds the same text.
#[verifier::external_body]
fn arc_from_string(s: String) -> (r: Arc<str>)
    ensures
        (*r)@ == s@,
{
    Arc::from(s)
}

/// Relies on `Rc::clone`: the new handle points at the same allocation.
#[verifier::external_body]
fn rc_share(r: &Rc<str>) -> (d: Rc<str>)
    ensures
        (*d)@ == (**r)@,
{
    Rc::clone(r)
}

/// Relies on `Arc::clone`: the new handle points at the same allocation.
#[verifier::external_body]
fn arc_share(a: &Arc<str>) -> (d: Arc<str>)
    ensures
        (*d)@ == (**a)@,
{
    Arc::clone(a)
}

impl Handle {
    /// Holds `payload` under strategy `kind`. This is set-up work, done
    /// before any clock is read.
    pub fn wrap(kind: StrType, payload: String) -> (h: Handle)
        ensures
            strategy_of(h) == kind,
            text_of(h) == payload@,
    {
        match kind {
            StrType::StringType => Handle::Owned(payload),
            StrType::RcType => Handle::Shared(rc_from_string(payload)),
            StrType::ArcType => Handle::Atomic(arc_from_string(payload)),
        }
    }

    /// The one operation that a trial times: a deep copy for an owned
    /// string, a new reference to the same allocation for the shared ones.
    pub fn duplicate(&self) -> (d: Handle)
        ensures
            strategy_of(d) == strategy_of(*self),
            text_of(d) == text_of(*self),
    {
        match self {
            Handle::Owned(s) => Handle::Owned(s.clone()),
            Handle::Shared(r) => Handle::Shared(rc_share(r)),
            Handle::Atomic(a) => Handle::Atomic(arc_share(a)),
        }
    }

    /// The strategy this handle was made under.
    pub fn kind(&self) -> (k: StrType)
        ensures
            k == strategy_of(*self),
    {
        match self {
            Handle::Owned(_) => StrType::StringType,
            Handle::Shared(_) => StrType::RcType,
            Handle::Atomic(_) => StrType::ArcType,
        }
    }
}

/// Duplicating a freshly wrapped payload gives back the payload's text, under
/// every strategy, whether or not the allocation is shared.
pub proof fn lemma_duplicate_preserves_content(kind: StrType, payload: String, h: Handle, d: Handle)
    requires
        call_ensures(Handle::wrap, (kind, payload), h),
        call_ensures(Handle::duplicate, (&h,), d),
    ensures
        text_of(d) == payload@,
        strategy_of(d) == kind,
{
}

} // verus!
