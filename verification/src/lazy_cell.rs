//! A cell that is filled on first use.
use vstd::prelude::*;

use std::rc::Rc;

verus! {

/// Another pointer to the same shared value (`std::rc::Rc::clone`): the same
/// value.
#[verifier::external_body]
fn rc_clone<T>(rc: &Rc<T>) -> (copy: Rc<T>)
    ensures
        copy == *rc,
{
    Rc::clone(rc)
}

/// A cell that holds a shared value once it has been initialised.
pub struct LazyCell<T> {
    container: Option<Rc<T>>,
}

impl<T> LazyCell<T> {
    /// The value, once initialised.
    pub closed spec fn value(self) -> Option<Rc<T>> {
        self.container
    }

    /// An empty cell.
    pub fn empty() -> (cell: Self)
        ensures
            cell.value() is None,
    {
        LazyCell { container: None }
    }

    /// The value of the cell; where the cell is empty, it is initialised
    /// first with what `init_fn` returns. Where `init_fn` fails, the cell
    /// stays empty and its error is returned. Once the cell holds a value,
    /// that value is returned and `init_fn` is not called.
    pub fn or_init_with<E, FnInit>(&mut self, init_fn: FnInit) -> (result: Result<Rc<T>, E>) where
        FnInit: FnOnce() -> Result<Rc<T>, E>,

        requires
            old(self).value() is None ==> init_fn.requires(()),
        ensures
            match old(self).value() {
                Some(existing) => result == Ok::<Rc<T>, E>(existing) && final(self).value()
                    == old(self).value(),
                None => {
                    &&& init_fn.ensures((), result)
                    &&& result matches Ok(v) ==> final(self).value() == Some(v)
                    &&& result is Err ==> final(self).value() is None
                },
            },
    {
        match &self.container {
            Some(existing) => Ok(rc_clone(existing)),
            None => match init_fn() {
                Ok(value) => {
                    let copy = rc_clone(&value);
                    self.container = Some(value);
                    Ok(copy)
                },
                Err(error) => Err(error),
            },
        }
    }
}

} // verus!
