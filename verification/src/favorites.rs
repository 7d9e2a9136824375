use vstd::prelude::*;

verus! {

/// The cities the user has starred, in the order they were starred.
#[derive(Debug, Clone)]
pub struct Favorites {
    pub locations: Vec<String>,
}

/// A list of city names, each name a sequence of characters.
pub type CityList = Seq<Seq<char>>;

impl View for Favorites {
    type V = CityList;

    open spec fn view(&self) -> CityList {
        self.locations@.map_values(|s: String| s@)
    }
}

/// The list after `city` is starred: unchanged when it is already there,
/// otherwise `city` goes to the end.
pub open spec fn with_added(list: CityList, city: Seq<char>) -> CityList {
    if list.contains(city) {
        list
    } else {
        list.push(city)
    }
}

/// The list with every occurrence of `city` taken out, the others kept in order.
pub open spec fn without(list: CityList, city: Seq<char>) -> CityList
    decreases list.len(),
{
    if list.len() == 0 {
        list
    } else if list.last() == city {
        without(list.drop_last(), city)
    } else {
        without(list.drop_last(), city).push(list.last())
    }
}

/// The list after the star of `city` is clicked: a starred city is
/// unstarred, any other city is starred.
pub open spec fn toggled(list: CityList, city: Seq<char>) -> CityList {
    if list.contains(city) {
        without(list, city)
    } else {
        with_added(list, city)
    }
}

/// Keeps every name other than `city`.
pub open spec fn other_than(city: Seq<char>) -> spec_fn(Seq<char>) -> bool {
    |x: Seq<char>| x != city
}

impl Favorites {
    /// The favorites a session starts from when no saved list can be read.
    pub fn load() -> (favorites: Favorites)
        ensures
            favorites@ == Seq::<Seq<char>>::empty(),
    {
        Favorites { locations: Vec::new() }
    }

    /// The favorites a session starts from: the saved list when one could be
    /// read, taken as it was saved, otherwise the empty list.
    pub fn restore(saved: Option<Vec<String>>) -> (favorites: Favorites)
        ensures
            match saved {
                Some(list) => favorites.locations == list,
                None => favorites@ == Seq::<Seq<char>>::empty(),
            },
    {
        match saved {
            Some(list) => Favorites { locations: list },
            None => Favorites::load(),
        }
    }

    /// Whether `city` is starred.
    pub fn contains(&self, city: &String) -> (found: bool)
        ensures
            found == self@.contains(city@),
    {
        let n = self.locations.len();
        let mut i: usize = 0;
        while i < n
            invariant
                n == self.locations.len(),
                0 <= i <= n,
                forall|j: int| 0 <= j < i ==> #[trigger] self@[j] != city@,
            decreases n - i,
        {
            if self.locations[i] == *city {
                assert(self@[i as int] == city@);
                return true;
            }
            i += 1;
        }
        false
    }

    /// Stars `city`; a city that is already starred is not added twice.
    pub fn add(&mut self, city: String)
        ensures
            final(self)@ == with_added(old(self)@, city@),
            old(self)@.contains(city@) ==> final(self)@ == old(self)@,
            !old(self)@.contains(city@) ==> final(self)@ == old(self)@.push(city@),
    {
        if !self.contains(&city) {
            let ghost before = self.locations@;
            self.locations.push(city);
            proof {
                assert(self.locations@ == before.push(city));
                assert(self@ =~= old(self)@.push(city@));
            }
        }
    }

    /// Unstars `city`: every entry equal to it is removed, the rest keep their order.
    pub fn remove(&mut self, city: &String)
        ensures
            final(self)@ == without(old(self)@, city@),
            final(self)@ == old(self)@.filter(other_than(city@)),
    {
        let n = self.locations.len();
        let mut kept: Vec<String> = Vec::new();
        let mut i: usize = 0;
        while i < n
            invariant
                n == self.locations.len(),
                0 <= i <= n,
                kept@.map_values(|s: String| s@) == without(self@.take(i as int), city@),
            decreases n - i,
        {
            let ghost prefix = self@.take(i as int);
            assert(self@.take(i + 1).drop_last() =~= prefix);
            assert(self@.take(i + 1).last() == self@[i as int]);
            if self.locations[i] != *city {
                let ghost before = kept@;
                kept.push(self.locations[i].clone());
                assert(kept@ == before.push(self.locations@[i as int]));
                assert(kept@.map_values(|s: String| s@) =~= before.map_values(|s: String| s@).push(
                    self@[i as int],
                ));
            }
            i += 1;
        }
        assert(self@.take(n as int) =~= self@);
        proof {
            lemma_without_is_filter(self@, city@);
        }
        self.locations = kept;
    }
}

impl Default for Favorites {
    fn default() -> (favorites: Favorites)
        ensures
            favorites@ == Seq::<Seq<char>>::empty(),
    {
        Favorites::load()
    }
}

// ---------------------------------------------------------------------------
// Laws of the favorites list
// ---------------------------------------------------------------------------

/// A starred city is in the list afterwards.
pub proof fn lemma_added_contains(list: CityList, city: Seq<char>)
    ensures
        with_added(list, city).contains(city),
{
    if !list.contains(city) {
        assert(list.push(city)[list.len() as int] == city);
    }
}

/// Starring never reorders or drops the cities already starred.
pub proof fn lemma_added_keeps_prefix(list: CityList, city: Seq<char>)
    ensures
        with_added(list, city).take(list.len() as int) == list,
        with_added(list, city).len() <= list.len() + 1,
{
    assert(with_added(list, city).take(list.len() as int) =~= list);
}

/// Starring the same city twice is the same as starring it once.
pub proof fn lemma_added_idempotent(list: CityList, city: Seq<char>)
    ensures
        with_added(with_added(list, city), city) == with_added(list, city),
{
    lemma_added_contains(list, city);
}

/// Starring keeps a list free of duplicates.
pub proof fn lemma_added_no_duplicates(list: CityList, city: Seq<char>)
    requires
        list.no_duplicates(),
    ensures
        with_added(list, city).no_duplicates(),
{
    if !list.contains(city) {
        let l2 = list.push(city);
        assert forall|i: int, j: int|
            0 <= i < l2.len() && 0 <= j < l2.len() && i != j implies l2[i] != l2[j] by {
            if i == list.len() as int {
                assert(list[j] == l2[j]);
            } else if j == list.len() as int {
                assert(list[i] == l2[i]);
            }
        }
    }
}

/// A city is in the list after unstarring `city` exactly when it was there
/// before and differs from `city`.
pub proof fn lemma_without_contains(list: CityList, city: Seq<char>, other: Seq<char>)
    ensures
        without(list, city).contains(other) <==> (list.contains(other) && other != city),
    decreases list.len(),
{
    if list.len() > 0 {
        let rest = list.drop_last();
        lemma_without_contains(rest, city, other);
        let w = without(rest, city);
        if list.contains(other) && other != city {
            let k = choose|k: int| 0 <= k < list.len() && list[k] == other;
            if k < list.len() - 1 {
                assert(rest[k] == other);
            }
            if list.last() != city {
                if k == list.len() - 1 {
                    assert(w.push(list.last())[w.len() as int] == other);
                } else {
                    let m = choose|m: int| 0 <= m < w.len() && w[m] == other;
                    assert(w.push(list.last())[m] == other);
                }
            }
        }
        if without(list, city).contains(other) {
            let m = choose|m: int| 0 <= m < without(list, city).len() && without(list, city)[m] == other;
            if list.last() != city {
                if m < w.len() {
                    assert(w[m] == other);
                } else {
                    assert(list[list.len() - 1] == other);
                }
            }
            if rest.contains(other) {
                let k = choose|k: int| 0 <= k < rest.len() && rest[k] == other;
                assert(list[k] == other);
            }
        }
    }
}

/// After unstarring, the city is no longer in the list.
pub proof fn lemma_without_absent(list: CityList, city: Seq<char>)
    ensures
        !without(list, city).contains(city),
{
    lemma_without_contains(list, city, city);
}

/// Unstarring a city that is not in the list leaves the list as it was.
pub proof fn lemma_without_absent_unchanged(list: CityList, city: Seq<char>)
    requires
        !list.contains(city),
    ensures
        without(list, city) == list,
    decreases list.len(),
{
    if list.len() > 0 {
        let rest = list.drop_last();
        if rest.contains(city) {
            let k = choose|k: int| 0 <= k < rest.len() && rest[k] == city;
            assert(list[k] == city);
        }
        assert(list[list.len() - 1] != city);
        lemma_without_absent_unchanged(rest, city);
        assert(rest.push(list.last()) =~= list);
    }
}

/// Unstarring a city right after starring it, when it was not starred
/// before, gives back the list as it was.
pub proof fn lemma_remove_undoes_add(list: CityList, city: Seq<char>)
    requires
        !list.contains(city),
    ensures
        without(with_added(list, city), city) == list,
{
    let l2 = list.push(city);
    assert(l2.drop_last() =~= list);
    lemma_without_absent_unchanged(list, city);
}

/// Unstarring is idempotent.
pub proof fn lemma_without_idempotent(list: CityList, city: Seq<char>)
    ensures
        without(without(list, city), city) == without(list, city),
{
    lemma_without_absent(list, city);
    lemma_without_absent_unchanged(without(list, city), city);
}

/// Unstarring keeps a list free of duplicates.
pub proof fn lemma_without_no_duplicates(list: CityList, city: Seq<char>)
    requires
        list.no_duplicates(),
    ensures
        without(list, city).no_duplicates(),
    decreases list.len(),
{
    if list.len() > 0 {
        let rest = list.drop_last();
        assert forall|i: int, j: int|
            0 <= i < rest.len() && 0 <= j < rest.len() && i != j implies rest[i] != rest[j] by {
            assert(list[i] == rest[i] && list[j] == rest[j]);
        }
        lemma_without_no_duplicates(rest, city);
        if list.last() != city {
            let w = without(rest, city);
            let l2 = w.push(list.last());
            if w.contains(list.last()) {
                lemma_without_contains(rest, city, list.last());
                let k = choose|k: int| 0 <= k < rest.len() && rest[k] == list.last();
                assert(list[k] == list[list.len() - 1]);
            }
            assert forall|i: int, j: int|
                0 <= i < l2.len() && 0 <= j < l2.len() && i != j implies l2[i] != l2[j] by {
                if i == w.len() as int {
                    assert(w[j] == l2[j]);
                } else if j == w.len() as int {
                    assert(w[i] == l2[i]);
                }
            }
        }
    }
}

/// Clicking the star of a city that is not starred twice leaves the list as it was.
pub proof fn lemma_toggle_twice_restores(list: CityList, city: Seq<char>)
    requires
        !list.contains(city),
    ensures
        toggled(toggled(list, city), city) == list,
{
    lemma_added_contains(list, city);
    lemma_remove_undoes_add(list, city);
}

/// Clicking a star keeps a list free of duplicates.
pub proof fn lemma_toggled_no_duplicates(list: CityList, city: Seq<char>)
    requires
        list.no_duplicates(),
    ensures
        toggled(list, city).no_duplicates(),
{
    lemma_added_no_duplicates(list, city);
    lemma_without_no_duplicates(list, city);
}

/// Unstarring a city is filtering it out: the list keeps exactly the other
/// cities, in the order they were starred.
pub proof fn lemma_without_is_filter(list: CityList, city: Seq<char>)
    ensures
        without(list, city) == list.filter(other_than(city)),
    decreases list.len(),
{
    reveal(Seq::filter);
    if list.len() > 0 {
        lemma_without_is_filter(list.drop_last(), city);
    }
}

} // verus!
