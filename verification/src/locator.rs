use vstd::prelude::*;

verus! {

/// The ancestor chain of a starting directory is modelled as a sequence of
/// booleans: `markers[i]` says whether the directory `i` steps above the
/// start holds the version-control marker. `markers[0]` is the starting
/// directory itself, and the last entry is the filesystem root.
///
/// `r` is the locator's verdict over such a chain: the nearest marked
/// ancestor, or failure when no ancestor is marked.
pub open spec fn is_nearest_marked(markers: Seq<bool>, r: Option<int>) -> bool {
    match r {
        Some(i) => 0 <= i < markers.len() && markers[i] && (forall|j: int|
            0 <= j < i ==> !markers[j]),
        None => forall|j: int| 0 <= j < markers.len() ==> !markers[j],
    }
}

/// The index of the nearest marked ancestor, walking upward from the start.
pub open spec fn first_marked(markers: Seq<bool>) -> Option<int>
    decreases markers.len(),
{
    if markers.len() == 0 {
        None
    } else if markers[0] {
        Some(0)
    } else {
        match first_marked(markers.drop_first()) {
            Some(i) => Some(i + 1),
            None => None,
        }
    }
}

/// `first_marked` is the nearest marked ancestor in the sense of
/// `is_nearest_marked`.
pub proof fn lemma_first_marked_is_nearest(markers: Seq<bool>)
    ensures
        is_nearest_marked(markers, first_marked(markers)),
    decreases markers.len(),
{
    if markers.len() == 0 {
    } else if markers[0] {
    } else {
        lemma_first_marked_is_nearest(markers.drop_first());
        match first_marked(markers.drop_first()) {
            Some(i) => {
                assert(markers.drop_first()[i] == markers[i + 1]);
                assert(forall|j: int| 1 <= j < i + 1 ==> markers[j] == markers.drop_first()[j - 1]);
            },
            None => {
                assert(forall|j: int|
                    1 <= j < markers.len() ==> markers[j] == markers.drop_first()[j - 1]);
            },
        }
    }
}

/// Walk upward from the starting directory and report the nearest ancestor
/// that holds the marker, as an index into the ancestor chain, or `None` when
/// no ancestor holds it. Testing one entry of `markers` stands for testing
/// one directory for the marker, so the first marked index is found after
/// exactly as many tests as its depth.
pub fn locate_root(markers: &Vec<bool>) -> (r: Option<usize>)
    ensures
        match r {
            Some(i) => first_marked(markers@) == Some(i as int) && i < markers@.len()
                && markers@[i as int] && (forall|j: int| 0 <= j < i ==> !markers@[j]),
            None => first_marked(markers@) is None && (forall|j: int|
                0 <= j < markers@.len() ==> !markers@[j]),
        },
{
    proof {
        lemma_first_marked_is_nearest(markers@);
    }
    let mut i: usize = 0;
    while i < markers.len()
        invariant
            i <= markers@.len(),
            forall|j: int| 0 <= j < i ==> !markers@[j],
            is_nearest_marked(markers@, first_marked(markers@)),
        decreases markers@.len() - i,
    {
        if markers[i] {
            return Some(i);
        }
        i += 1;
    }
    None
}

/// Law: in an ancestor chain with exactly one marked directory, at depth `d`,
/// the locator's verdict is that directory; it neither misses it nor returns
/// another one.
pub proof fn lemma_unique_marker_found(markers: Seq<bool>, d: int)
    requires
        0 <= d < markers.len(),
        markers[d],
        forall|j: int| 0 <= j < markers.len() && j != d ==> !markers[j],
    ensures
        first_marked(markers) == Some(d),
{
    lemma_first_marked_is_nearest(markers);
    match first_marked(markers) {
        Some(i) => {
            assert(i == d);
        },
        None => {
            assert(!markers[d]);
        },
    }
}

/// Law: in an ancestor chain with no marked directory, the locator reports
/// failure rather than returning any index.
pub proof fn lemma_no_marker_fails(markers: Seq<bool>)
    requires
        forall|j: int| 0 <= j < markers.len() ==> !markers[j],
    ensures
        first_marked(markers) is None,
{
    lemma_first_marked_is_nearest(markers);
    if first_marked(markers) is Some {
        let i = first_marked(markers)->Some_0;
        assert(markers[i]);
    }
}

/// Law: when the starting directory itself holds the marker, the locator
/// returns it immediately, after zero upward steps.
pub proof fn lemma_marker_at_start(markers: Seq<bool>)
    requires
        markers.len() > 0,
        markers[0],
    ensures
        first_marked(markers) == Some(0int),
{
}

} // verus!
