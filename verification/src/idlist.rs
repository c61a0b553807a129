use vstd::prelude::*;

verus! {

/// The ids of the items a view currently shows, each at most once, in the
/// order they were added.
pub struct IdList {
    ids: Vec<String>,
}

impl View for IdList {
    type V = Seq<Seq<char>>;

    closed spec fn view(&self) -> Seq<Seq<char>> {
        self.ids@.map_values(|s: String| s@)
    }
}

impl IdList {
    /// No id occurs twice.
    pub open spec fn wf(&self) -> bool {
        self@.no_duplicates()
    }

    pub fn new() -> (l: IdList)
        ensures
            l@ == Seq::<Seq<char>>::empty(),
            l.wf(),
    {
        let l = IdList { ids: Vec::new() };
        assert(l@ =~= Seq::<Seq<char>>::empty());
        l
    }

    pub fn len(&self) -> (n: usize)
        ensures
            n == self@.len(),
    {
        self.ids.len()
    }

    /// Position of `id`.
    pub fn position(&self, id: &str) -> (r: Option<usize>)
        ensures
            r matches Some(i) ==> i < self@.len() && self@[i as int] == id@,
            r is None <==> !self@.contains(id@),
    {
        let n = self.ids.len();
        let mut i: usize = 0;
        while i < n
            invariant
                n == self.ids@.len(),
                i <= n,
                forall|k: int| 0 <= k < i ==> self@[k] != id@,
            decreases n - i,
        {
            if crate::text::str_eq(self.ids[i].as_str(), id) {
                assert(self@[i as int] == id@);
                return Some(i);
            }
            i = i + 1;
        }
        None
    }

    pub fn contains(&self, id: &str) -> (b: bool)
        ensures
            b == self@.contains(id@),
    {
        self.position(id).is_some()
    }

    /// Adds `id` at the end; it must not be shown yet.
    pub fn add(&mut self, id: String)
        requires
            old(self).wf(),
            !old(self)@.contains(id@),
        ensures
            final(self)@ == old(self)@.push(id@),
            final(self).wf(),
    {
        self.ids.push(id);
        assert(self@ =~= old(self)@.push(id@));
    }

    /// Takes `id` out; returns whether it was shown.
    pub fn remove(&mut self, id: &str) -> (removed: bool)
        requires
            old(self).wf(),
        ensures
            removed == old(self)@.contains(id@),
            removed ==> exists|i: int|
                0 <= i < old(self)@.len() && old(self)@[i] == id@ && final(self)@ == old(self)@.remove(i),
            !removed ==> final(self)@ == old(self)@,
            final(self).wf(),
            !final(self)@.contains(id@),
    {
        match self.position(id) {
            Some(i) => {
                self.ids.remove(i);
                assert(self@ =~= old(self)@.remove(i as int));
                assert forall|a: int, b: int| 0 <= a < b < self@.len() implies self@[a] != self@[b] by {
                    let oa = if a < i { a } else { a + 1 };
                    let ob = if b < i { b } else { b + 1 };
                    assert(self@[a] == old(self)@[oa]);
                    assert(self@[b] == old(self)@[ob]);
                }
                assert forall|k: int| 0 <= k < self@.len() implies self@[k] != id@ by {
                    let ok = if k < i { k } else { k + 1 };
                    assert(self@[k] == old(self)@[ok]);
                }
                true
            },
            None => false,
        }
    }
}

} // verus!
