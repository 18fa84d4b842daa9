//! A model of the two cell disciplines of the generated singletons, as values
//! that a caller owns and passes by reference: `OnceSlot` keeps the first value
//! it is given and refuses access while empty, `OverwriteSlot` keeps the last
//! value and grants access only once filled. The laws below are proved of this
//! model; nothing ties it to the `impl` text that the generators emit.
use vstd::prelude::*;
use crate::expand::{not_initialized_message, not_initialized_text};

verus! {

/// What a `OnceSlot` holds after `initialize(instance)`: what it held, if
/// anything, else `instance`.
pub open spec fn first_kept<T>(current: Option<T>, instance: T) -> Option<T> {
    if current is Some {
        current
    } else {
        Some(instance)
    }
}

/// What an access to a `OnceSlot` of the type `name` holding `current` gives:
/// the value, or the not-initialized message naming the type.
pub open spec fn access_result<T>(current: Option<T>, name: Seq<char>) -> Result<T, Seq<char>> {
    match current {
        Some(v) => Ok(v),
        None => Err(not_initialized_message(name)),
    }
}

/// What an `OverwriteSlot` holds after `initialize(instance)`: `instance`,
/// whatever it held before.
pub open spec fn last_kept<T>(current: Option<T>, instance: T) -> Option<T> {
    Some(instance)
}

/// A successful access yielding `v`.
pub open spec fn ok_of<T>(v: T) -> Result<T, Seq<char>> {
    Ok(v)
}

/// A failed access with the message `message`.
pub open spec fn err_of<T>(message: Seq<char>) -> Result<T, Seq<char>> {
    Err(message)
}

/// A single-instance cell whose first `initialize` wins; `w` and `r` fail while
/// it is empty, with a message naming the type.
pub struct OnceSlot<T> {
    owner: String,
    value: Option<T>,
}

impl<T> OnceSlot<T> {
    /// The name of the type whose single instance the slot holds.
    pub closed spec fn name(&self) -> Seq<char> {
        self.owner@
    }

    /// The instance held, if any.
    pub closed spec fn contents(&self) -> Option<T> {
        self.value
    }

    /// An empty slot for the type `owner`.
    pub fn new(owner: &str) -> (r: Self)
        ensures
            r.name() == owner@,
            r.contents() is None,
    {
        OnceSlot { owner: String::from_str(owner), value: None }
    }

    /// Stores `instance` if the slot is empty; otherwise drops it.
    pub fn initialize(&mut self, instance: T)
        ensures
            final(self).name() == old(self).name(),
            final(self).contents() == first_kept(old(self).contents(), instance),
    {
        if self.value.is_none() {
            self.value = Some(instance);
        }
    }

    /// Exclusive access to the instance.
    pub fn w(&mut self) -> (r: Result<&mut T, String>)
        ensures
            r is Ok <==> old(self).contents() is Some,
            r is Ok ==> access_result(old(self).contents(), old(self).name()) == ok_of(*r->Ok_0),
            r is Ok ==> final(self).name() == old(self).name() && final(self).contents() == Some(*final(r->Ok_0)),
            r is Err ==> access_result(old(self).contents(), old(self).name()) == err_of::<T>(r->Err_0@),
            r is Err ==> *final(self) == *old(self),
    {
        match &mut self.value {
            Some(v) => Ok(v),
            None => Err(not_initialized_text(self.owner.as_str())),
        }
    }

    /// Shared access to the instance. Any number of these may be held at once,
    /// and none while `w`'s access is held.
    pub fn r(&self) -> (r: Result<&T, String>)
        ensures
            r is Ok ==> access_result(self.contents(), self.name()) == ok_of(*r->Ok_0),
            r is Err ==> access_result(self.contents(), self.name()) == err_of::<T>(r->Err_0@),
    {
        match &self.value {
            Some(v) => Ok(v),
            None => Err(not_initialized_text(self.owner.as_str())),
        }
    }
}

/// A single-instance cell whose last `initialize` wins and whose accessor
/// requires that it was filled.
pub struct OverwriteSlot<T> {
    value: Option<T>,
}

impl<T> OverwriteSlot<T> {
    /// The instance held, if any.
    pub closed spec fn contents(&self) -> Option<T> {
        self.value
    }

    /// An empty slot.
    pub fn new() -> (r: Self)
        ensures
            r.contents() is None,
    {
        OverwriteSlot { value: None }
    }

    /// Stores `instance`, replacing whatever the slot held.
    pub fn initialize(&mut self, instance: T)
        ensures
            final(self).contents() == last_kept(old(self).contents(), instance),
    {
        self.value = Some(instance);
    }

    /// Mutable access to the instance; what is written through it is what the
    /// slot holds afterwards.
    pub fn g(&mut self) -> (r: &mut T)
        requires
            old(self).contents() is Some,
        ensures
            *r == old(self).contents()->Some_0,
            final(self).contents() == Some(*final(r)),
    {
        match &mut self.value {
            Some(v) => v,
            None => unreached(),
        }
    }
}

/// What a `OnceSlot` holds after `initialize` is called with each of
/// `instances` in turn, starting from `current`.
pub open spec fn after_initializations<T>(current: Option<T>, instances: Seq<T>) -> Option<T>
    decreases instances.len(),
{
    if instances.len() == 0 {
        current
    } else {
        after_initializations(first_kept(current, instances[0]), instances.drop_first())
    }
}

/// A `OnceSlot` that was never initialized answers every access with a failure
/// whose message names the slot's type.
pub proof fn lemma_access_before_initialize_fails<T>(name: Seq<char>)
    ensures
        access_result::<T>(None, name) == err_of::<T>(not_initialized_message(name)),
        not_initialized_message(name).subrange("Singleton "@.len() as int, "Singleton "@.len() + name.len() as int) == name,
{
    reveal_strlit("Singleton ");
    assert(not_initialized_message(name).subrange("Singleton "@.len() as int, "Singleton "@.len() + name.len() as int) =~= name);
}

/// First write wins: once a `OnceSlot` was initialized with `first`, any number
/// of later initializations leave it holding `first`, and access yields it.
pub proof fn lemma_first_initialize_wins<T>(name: Seq<char>, first: T, later: Seq<T>)
    ensures
        after_initializations(first_kept(None, first), later) == Some(first),
        access_result(after_initializations(first_kept(None, first), later), name) == ok_of(first),
    decreases later.len(),
{
    if later.len() > 0 {
        lemma_first_initialize_wins(name, first, later.drop_first());
    }
}

/// What an `OverwriteSlot` holds after `initialize` is called with each of
/// `instances` in turn, starting from `current`.
pub open spec fn after_overwrites<T>(current: Option<T>, instances: Seq<T>) -> Option<T>
    decreases instances.len(),
{
    if instances.len() == 0 {
        current
    } else {
        after_overwrites(last_kept(current, instances[0]), instances.drop_first())
    }
}

/// Last write wins: after one or more initializations an `OverwriteSlot` holds the
/// last instance given, whatever it held before.
pub proof fn lemma_last_initialize_wins<T>(current: Option<T>, instances: Seq<T>)
    requires
        instances.len() > 0,
    ensures
        after_overwrites(current, instances) == Some(instances.last()),
    decreases instances.len(),
{
    let rest = instances.drop_first();
    if rest.len() > 0 {
        lemma_last_initialize_wins(last_kept(current, instances[0]), rest);
        assert(rest.last() == instances.last());
    } else {
        assert(after_overwrites(last_kept(current, instances[0]), rest) == last_kept(current, instances[0]));
    }
}

} // verus!
