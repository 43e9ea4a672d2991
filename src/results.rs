use vstd::prelude::*;

verus! {

/// What a unique query returns: each matching token once.
pub struct SearchResult {
    pub values: Vec<usize>,
}

/// One occurrence of a pattern: its token and the half-open byte range
/// `[start, end)` of the occurrence in the haystack.
#[derive(Clone, Copy, Debug, PartialEq, Eq, Structural)]
pub struct ExtendedResultElement {
    pub value: usize,
    pub start: usize,
    pub end: usize,
}

/// What an extended query returns: every occurrence, in the engine's order.
pub struct ExtendedSearchResult {
    pub values: Vec<ExtendedResultElement>,
}

impl SearchResult {
    pub fn length(&self) -> (r: usize)
        ensures
            r == self.values@.len(),
    {
        self.values.len()
    }
}

impl ExtendedSearchResult {
    pub fn length(&self) -> (r: usize)
        ensures
            r == self.values@.len(),
    {
        self.values.len()
    }
}

fn holds(v: &Vec<usize>, x: usize) -> (r: bool)
    ensures
        r == v@.contains(x),
{
    let mut i: usize = 0;
    while i < v.len()
        invariant
            i <= v@.len(),
            forall|j: int| 0 <= j < i ==> v@[j] != x,
        decreases v@.len() - i,
    {
        if v[i] == x {
            return true;
        }
        i += 1;
    }
    false
}

/// Lays out the tokens that the engine found for a unique query. Each token
/// is kept once; a list that holds no token twice is kept as it is.
pub fn search_searcher(found: Vec<usize>) -> (r: SearchResult)
    ensures
        r.values@.no_duplicates(),
        r.values@.to_set() == found@.to_set(),
        found@.no_duplicates() ==> r.values@ == found@,
{
    let mut values: Vec<usize> = Vec::new();
    let mut i: usize = 0;
    while i < found.len()
        invariant
            i <= found@.len(),
            values@.no_duplicates(),
            forall|x: usize| values@.contains(x) <==> found@.subrange(0, i as int).contains(x),
            found@.no_duplicates() ==> values@ == found@.subrange(0, i as int),
        decreases found@.len() - i,
    {
        let x = found[i];
        let ghost prefix = found@.subrange(0, i as int);
        let ghost old_values = values@;
        assert(found@.subrange(0, i + 1) =~= prefix.push(x));
        if !holds(&values, x) {
            values.push(x);
            assert forall|y: usize| values@.contains(y) <==> prefix.push(x).contains(y) by {
                if values@.contains(y) && y != x {
                    let j = choose|j: int| 0 <= j < values@.len() && values@[j] == y;
                    assert(old_values[j] == y);
                    assert(old_values.contains(y));
                    assert(prefix.contains(y));
                    let k = choose|k: int| 0 <= k < prefix.len() && prefix[k] == y;
                    assert(prefix.push(x)[k] == y);
                }
                if prefix.push(x).contains(y) && y != x {
                    let j = choose|j: int| 0 <= j < prefix.len() + 1 && prefix.push(x)[j] == y;
                    assert(prefix[j] == y);
                    assert(old_values.contains(y));
                    let k = choose|k: int| 0 <= k < old_values.len() && old_values[k] == y;
                    assert(values@[k] == y);
                }
                if y == x {
                    assert(values@[values@.len() - 1] == y);
                    assert(prefix.push(x)[prefix.len() as int] == y);
                }
            }
        } else {
            assert forall|y: usize| values@.contains(y) <==> prefix.push(x).contains(y) by {
                if prefix.push(x).contains(y) && y != x {
                    let j = choose|j: int| 0 <= j < prefix.len() + 1 && prefix.push(x)[j] == y;
                    assert(prefix[j] == y);
                }
                if values@.contains(y) {
                    assert(prefix.contains(y));
                    let j = choose|j: int| 0 <= j < prefix.len() && prefix[j] == y;
                    assert(prefix.push(x)[j] == y);
                }
            }
            proof {
                if found@.no_duplicates() {
                    let j = choose|j: int| 0 <= j < prefix.len() && prefix[j] == x;
                    assert(found@[j] == found@[i as int]);
                }
            }
        }
        i += 1;
    }
    assert(found@.subrange(0, found@.len() as int) =~= found@);
    assert(values@.to_set() =~= found@.to_set());
    SearchResult { values }
}

/// Lays out the occurrences that the engine found for an extended query,
/// each given as `(token, start, end)`, one element each, in the same order.
pub fn search_searcher_extended(found: Vec<(usize, usize, usize)>) -> (r: ExtendedSearchResult)
    ensures
        r.values@.len() == found@.len(),
        forall|i: int|
            0 <= i < found@.len() ==> #[trigger] r.values@[i] == (ExtendedResultElement {
                value: found@[i].0,
                start: found@[i].1,
                end: found@[i].2,
            }),
{
    let mut values: Vec<ExtendedResultElement> = Vec::new();
    let mut i: usize = 0;
    while i < found.len()
        invariant
            i <= found@.len(),
            values@.len() == i,
            forall|j: int|
                0 <= j < i ==> #[trigger] values@[j] == (ExtendedResultElement {
                    value: found@[j].0,
                    start: found@[j].1,
                    end: found@[j].2,
                }),
        decreases found@.len() - i,
    {
        let (value, start, end) = found[i];
        values.push(ExtendedResultElement { value, start, end });
        i += 1;
    }
    ExtendedSearchResult { values }
}

} // verus!
