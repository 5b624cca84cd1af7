//! Boxed recursive data: a singly linked list, and a box-like wrapper.

use vstd::prelude::*;

verus! {

/// A non-empty singly linked list: a value and an optional boxed tail.
#[derive(Debug)]
pub struct LinkedList<T> {
    value: T,
    next: Option<Box<LinkedList<T>>>,
}

impl<T> LinkedList<T> {
    /// The values of the list, front to back. Never empty.
    pub closed spec fn view(&self) -> Seq<T>
        decreases self,
    {
        match self.next {
            None => seq![self.value],
            Some(rest) => seq![self.value] + rest.view(),
        }
    }

    /// A one-element list holding `val`.
    pub fn new(val: T) -> (list: Box<LinkedList<T>>)
        ensures
            list.view() == seq![val],
    {
        Box::new(LinkedList { value: val, next: None })
    }

    /// Appends `val` at the end of the list.
    pub fn add(list: &mut Box<LinkedList<T>>, val: T)
        ensures
            final(list).view() == old(list).view().push(val),
        decreases old(list).view().len(),
    {
        if list.next.is_some() {
            let rest = list.next.as_mut().unwrap();
            LinkedList::add(rest, val);
            proof {
                assert(list.view() =~= old(list).view().push(val));
            }
        } else {
            let tail = Box::new(LinkedList { value: val, next: None });
            proof {
                assert(tail.view() =~= seq![val]);
            }
            list.next = Some(tail);
            proof {
                assert(list.view() =~= old(list).view().push(val));
            }
        }
    }

    /// A borrow of the value at the front of the list.
    pub fn first(&self) -> (r: &T)
        ensures
            *r == self.view()[0],
    {
        &self.value
    }

    /// How many values the list holds.
    pub fn length(&self) -> (n: usize)
        requires
            self.view().len() <= usize::MAX,
        ensures
            n == self.view().len(),
        decreases self,
    {
        match &self.next {
            None => 1,
            Some(rest) => 1 + rest.length(),
        }
    }

    /// A borrow of the last node of the list.
    pub fn find_end<'a>(list: &'a Box<LinkedList<T>>) -> (last: &'a Box<LinkedList<T>>)
        ensures
            last.view() == seq![list.view().last()],
        decreases list.view().len(),
    {
        match &list.next {
            Some(rest) => {
                let last = LinkedList::find_end(rest);
                proof {
                    assert(list.view().last() == rest.view().last());
                }
                last
            },
            None => list,
        }
    }
}

/// A box of one value, holding it inline instead of on the heap.
pub struct MyBox<T>(pub T);

impl<T> MyBox<T> {
    /// Wraps a value.
    pub fn new(x: T) -> (b: MyBox<T>)
        ensures
            b.0 == x,
    {
        MyBox(x)
    }

    /// A borrow of the wrapped value, as dereferencing would give.
    pub fn get(&self) -> (r: &T)
        ensures
            *r == self.0,
    {
        &self.0
    }
}

} // verus!
