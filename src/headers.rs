use vstd::prelude::*;
use crate::bytes_util::{bytes_eq, copy_bytes};

verus! {

/// One header line: a lower-case name and an opaque value.
pub struct HeaderField {
    pub name: Vec<u8>,
    pub value: Vec<u8>,
}

/// A header multimap: names may repeat, and the order of the lines is kept.
pub struct HeaderList {
    pub fields: Vec<HeaderField>,
}

/// The abstract value of a header list: its lines as (name, value) pairs.
pub type HeaderSeq = Seq<(Seq<u8>, Seq<u8>)>;

impl View for HeaderField {
    type V = (Seq<u8>, Seq<u8>);

    open spec fn view(&self) -> (Seq<u8>, Seq<u8>) {
        (self.name@, self.value@)
    }
}

impl View for HeaderList {
    type V = HeaderSeq;

    open spec fn view(&self) -> HeaderSeq {
        self.fields@.map_values(|f: HeaderField| f@)
    }
}

/// The lines of `s` whose name is not `name`, in their order.
pub open spec fn without(s: HeaderSeq, name: Seq<u8>) -> HeaderSeq
    decreases s.len(),
{
    if s.len() == 0 {
        s
    } else if s.last().0 == name {
        without(s.drop_last(), name)
    } else {
        without(s.drop_last(), name).push(s.last())
    }
}

/// `s` with every line named `name` replaced by a single line `name: value` at the end.
pub open spec fn with_value(s: HeaderSeq, name: Seq<u8>, value: Seq<u8>) -> HeaderSeq {
    without(s, name).push((name, value))
}

/// The value of the first line of `s` named `name`, if there is one.
pub open spec fn first_value(s: HeaderSeq, name: Seq<u8>) -> Option<Seq<u8>>
    decreases s.len(),
{
    if s.len() == 0 {
        None
    } else {
        match first_value(s.drop_last(), name) {
            Some(v) => Some(v),
            None => if s.last().0 == name {
                Some(s.last().1)
            } else {
                None
            },
        }
    }
}

proof fn lemma_first_value_prefix(s: HeaderSeq, name: Seq<u8>, i: int)
    requires
        0 <= i <= s.len(),
        first_value(s.subrange(0, i), name) is Some,
    ensures
        first_value(s, name) == first_value(s.subrange(0, i), name),
    decreases s.len() - i,
{
    if i < s.len() {
        let t = s.subrange(0, i + 1);
        assert(t.drop_last() =~= s.subrange(0, i));
        lemma_first_value_prefix(s, name, i + 1);
    } else {
        assert(s.subrange(0, i) =~= s);
    }
}

impl HeaderField {
    /// A copy of this line.
    pub fn duplicate(&self) -> (r: HeaderField)
        ensures
            r@ == self@,
    {
        HeaderField { name: copy_bytes(self.name.as_slice()), value: copy_bytes(self.value.as_slice()) }
    }
}

impl HeaderList {
    /// An empty header list.
    pub fn new() -> (r: HeaderList)
        ensures
            r@ == Seq::<(Seq<u8>, Seq<u8>)>::empty(),
    {
        HeaderList { fields: Vec::new() }
    }

    /// Adds the line `name: value` after the existing ones.
    pub fn append(&mut self, name: &[u8], value: &[u8])
        ensures
            final(self)@ == old(self)@.push((name@, value@)),
    {
        let f = HeaderField { name: copy_bytes(name), value: copy_bytes(value) };
        self.fields.push(f);
        assert(self@ =~= old(self)@.push((name@, value@)));
    }

    /// A copy of this list.
    pub fn duplicate(&self) -> (r: HeaderList)
        ensures
            r@ == self@,
    {
        let mut out: Vec<HeaderField> = Vec::new();
        let mut i: usize = 0;
        while i < self.fields.len()
            invariant
                i <= self.fields@.len(),
                out@.map_values(|f: HeaderField| f@) =~= self@.subrange(0, i as int),
            decreases self.fields@.len() - i,
        {
            let ghost prev = out@;
            out.push(self.fields[i].duplicate());
            assert(out@ == prev.push(out@.last()));
            assert(out@.map_values(|f: HeaderField| f@) =~= prev.map_values(|f: HeaderField| f@).push(self@[i as int]));
            i = i + 1;
        }
        let r = HeaderList { fields: out };
        assert(r@ =~= self@);
        r
    }

    /// The value of the first line named `name`, if any.
    pub fn get(&self, name: &[u8]) -> (r: Option<&Vec<u8>>)
        ensures
            match r {
                Some(v) => first_value(self@, name@) == Some(v@),
                None => first_value(self@, name@) is None,
            },
    {
        let mut i: usize = 0;
        while i < self.fields.len()
            invariant
                i <= self.fields@.len(),
                first_value(self@.subrange(0, i as int), name@) is None,
            decreases self.fields@.len() - i,
        {
            let f = &self.fields[i];
            assert(self@.subrange(0, i + 1).drop_last() =~= self@.subrange(0, i as int));
            if bytes_eq(f.name.as_slice(), name) {
                proof {
                    lemma_first_value_prefix(self@, name@, i + 1);
                }
                return Some(&f.value);
            }
            i = i + 1;
        }
        assert(self@.subrange(0, i as int) =~= self@);
        None
    }

    /// Removes every line named `name`, keeping the order of the others.
    pub fn remove(&mut self, name: &[u8])
        ensures
            final(self)@ == without(old(self)@, name@),
    {
        let ghost s = self@;
        let mut kept: Vec<HeaderField> = Vec::new();
        let mut i: usize = 0;
        while i < self.fields.len()
            invariant
                i <= self.fields@.len(),
                self@ == s,
                kept@.map_values(|f: HeaderField| f@) =~= without(s.subrange(0, i as int), name@),
            decreases self.fields@.len() - i,
        {
            let f = &self.fields[i];
            assert(s.subrange(0, i + 1).drop_last() =~= s.subrange(0, i as int));
            if !bytes_eq(f.name.as_slice(), name) {
                kept.push(f.duplicate());
            }
            i = i + 1;
            assert(kept@.map_values(|f: HeaderField| f@) =~= without(s.subrange(0, i as int), name@));
        }
        assert(s.subrange(0, i as int) =~= s);
        self.fields = kept;
    }

    /// Sets `name` to the single value `value`: earlier lines of that name go,
    /// and the new line comes last.
    pub fn insert(&mut self, name: &[u8], value: &[u8])
        ensures
            final(self)@ == with_value(old(self)@, name@, value@),
    {
        self.remove(name);
        self.append(name, value);
    }
}

/// After `without(s, name)` no line is named `name`.
pub proof fn lemma_without_has_none(s: HeaderSeq, name: Seq<u8>)
    ensures
        first_value(without(s, name), name) is None,
    decreases s.len(),
{
    if s.len() > 0 {
        lemma_without_has_none(s.drop_last(), name);
        let w = without(s, name);
        if s.last().0 != name {
            assert(w.drop_last() == without(s.drop_last(), name));
        }
    }
}

/// Removing the lines of one name leaves the first value of another as it was.
pub proof fn lemma_without_keeps_other(s: HeaderSeq, name: Seq<u8>, other: Seq<u8>)
    requires
        name != other,
    ensures
        first_value(without(s, name), other) == first_value(s, other),
    decreases s.len(),
{
    if s.len() > 0 {
        lemma_without_keeps_other(s.drop_last(), name, other);
        let w = without(s, name);
        if s.last().0 != name {
            assert(w.drop_last() == without(s.drop_last(), name));
        }
    }
}

/// After `with_value(s, name, value)` the first value of `name` is `value`.
pub proof fn lemma_with_value_first(s: HeaderSeq, name: Seq<u8>, value: Seq<u8>)
    ensures
        first_value(with_value(s, name, value), name) == Some(value),
{
    lemma_without_has_none(s, name);
    assert(with_value(s, name, value).drop_last() == without(s, name));
}

} // verus!
