//! A sequence that yields a default item when its source is empty.
use vstd::prelude::*;

verus! {

/// Yields the items of `source` in order; where `source` is empty from the
/// start, yields `default` once instead.
pub struct DefaultIfEmpty<T> {
    source: Vec<T>,
    default: Option<T>,
}

impl<T> View for DefaultIfEmpty<T> {
    /// The items still to come, and the default while it may still be yielded.
    type V = (Seq<T>, Option<T>);

    closed spec fn view(&self) -> (Seq<T>, Option<T>) {
        (self.source@, self.default)
    }
}

impl<T> DefaultIfEmpty<T> {
    pub fn new(source: Vec<T>, default: T) -> (r: Self)
        ensures
            r@ == (source@, Some(default)),
    {
        DefaultIfEmpty { source, default: Some(default) }
    }

    /// The next item: the source's first while any is left, which also drops
    /// the default; else the default, once.
    pub fn next(&mut self) -> (r: Option<T>)
        ensures
            old(self)@.0.len() > 0 ==> r == Some(old(self)@.0[0]) && final(self)@ == (
                old(self)@.0.subrange(1, old(self)@.0.len() as int),
                None::<T>,
            ),
            old(self)@.0.len() == 0 ==> r == old(self)@.1 && final(self)@ == (old(self)@.0, None::<T>),
    {
        if self.source.len() > 0 {
            let item = self.source.remove(0);
            self.default = None;
            Some(item)
        } else {
            let mut taken = None;
            std::mem::swap(&mut taken, &mut self.default);
            taken
        }
    }

    /// Everything the sequence yields from here on.
    pub fn collect_all(self) -> (r: Vec<T>)
        ensures
            r@ == (if self@.0.len() > 0 {
                self@.0
            } else {
                match self@.1 {
                    Some(d) => seq![d],
                    None => Seq::empty(),
                }
            }),
    {
        let mut it = self;
        let mut out: Vec<T> = Vec::new();
        let ghost start = it@;
        if it.source.len() == 0 {
            match it.next() {
                Some(d) => out.push(d),
                None => {},
            }
            assert(out@ =~= (match start.1 {
                Some(d) => seq![d],
                None => Seq::<T>::empty(),
            }));
            return out;
        }
        while it.source.len() > 0
            invariant
                start.0.len() > 0,
                out@ + it@.0 =~= start.0,
            decreases it@.0.len(),
        {
            let ghost before = it@.0;
            match it.next() {
                Some(x) => {
                    out.push(x);
                },
                None => {},
            }
            assert(out@ + it@.0 =~= start.0) by {
                assert(before =~= seq![before[0]] + it@.0);
            }
        }
        assert(out@ =~= start.0);
        out
    }
}

/// Wraps a source so that it yields a default item when it is empty.
pub trait DefaultIter<T>: Sized {
    /// The items that the source yields.
    spec fn items(&self) -> Seq<T>;

    fn default(self, d: T) -> (r: DefaultIfEmpty<T>)
        ensures
            r@ == (self.items(), Some(d)),
    ;
}

impl<T> DefaultIter<T> for Vec<T> {
    open spec fn items(&self) -> Seq<T> {
        self@
    }

    fn default(self, d: T) -> (r: DefaultIfEmpty<T>) {
        DefaultIfEmpty::new(self, d)
    }
}

} // verus!
