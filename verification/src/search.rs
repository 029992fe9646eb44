//! Application search: the catalogue of installed applications, prefix
//! search, the launcher's filter and the alphabetical listing.
use vstd::prelude::*;

use crate::keyed::Keyed;
use crate::text::{chars_of, is_prefix, lowercase_spec, starts_with_chars, to_lowercase};

verus! {

/// An installed application.
#[derive(Clone, Debug)]
pub struct AppInfo {
    /// The desktop-entry identifier (the name when there is none).
    pub id: String,
    pub name: String,
    /// The serialized icon, when the application has one.
    pub icon: Option<String>,
    pub display_name: String,
    pub executable: String,
    /// The command line (the executable when there is none).
    pub command: String,
}

fn clone_opt(o: &Option<String>) -> (r: Option<String>)
    ensures
        r == *o,
{
    match o {
        Some(s) => Some(s.clone()),
        None => None,
    }
}

impl AppInfo {
    /// Builds the entry from what the desktop entry provides.
    pub fn from_parts(
        id: Option<String>,
        name: String,
        icon: Option<String>,
        display_name: String,
        executable: String,
        commandline: Option<String>,
    ) -> (r: AppInfo)
        ensures
            r.id@ == (match id {
                Some(i) => i@,
                None => name@,
            }),
            r.name == name,
            r.icon == icon,
            r.display_name == display_name,
            r.executable == executable,
            r.command@ == (match commandline {
                Some(c) => c@,
                None => executable@,
            }),
    {
        let id = match id {
            Some(i) => i,
            None => name.clone(),
        };
        let command = match commandline {
            Some(c) => c,
            None => executable.clone(),
        };
        AppInfo { id, name, icon, display_name, executable, command }
    }

    /// A copy of the entry.
    pub fn duplicate(&self) -> (r: AppInfo)
        ensures
            r == *self,
    {
        AppInfo {
            id: self.id.clone(),
            name: self.name.clone(),
            icon: clone_opt(&self.icon),
            display_name: self.display_name.clone(),
            executable: self.executable.clone(),
            command: self.command.clone(),
        }
    }
}

/// Whether an application's name starts with the search term.
pub open spec fn name_has_prefix(term: Seq<char>) -> spec_fn(AppInfo) -> bool {
    |a: AppInfo| is_prefix(term, a.name@)
}

/// The catalogue built by inserting the applications in order by identifier;
/// a later application replaces an earlier one with the same identifier.
pub open spec fn catalog_map(apps: Seq<AppInfo>) -> Map<Seq<char>, AppInfo>
    decreases apps.len(),
{
    if apps.len() == 0 {
        Map::empty()
    } else {
        catalog_map(apps.drop_last()).insert(apps.last().id@, apps.last())
    }
}

/// `entries` lists each application of `by_id` exactly once, under its
/// identifier.
pub open spec fn lists_each_once(entries: Seq<AppInfo>, by_id: Map<Seq<char>, AppInfo>) -> bool {
    &&& forall|i: int|
        0 <= i < entries.len() ==> by_id.dom().contains((#[trigger] entries[i]).id@) && by_id[entries[i].id@]
            == entries[i]
    &&& forall|i: int, j: int|
        0 <= i < j < entries.len() ==> (#[trigger] entries[i]).id@ != (#[trigger] entries[j]).id@
    &&& forall|k: Seq<char>|
        #[trigger] by_id.dom().contains(k) ==> exists|i: int|
            0 <= i < entries.len() && (#[trigger] entries[i]).id@ == k
}

/// The installed applications, by identifier, in the order first seen.
pub struct Catalog {
    apps: Keyed<AppInfo>,
}

impl Catalog {
    pub closed spec fn wf(self) -> bool {
        &&& self.apps.wf()
        &&& forall|i: int| 0 <= i < self.apps.pairs().len() ==> #[trigger] self.apps.key_at(i) == self.apps.pairs()[i].1.id@
    }

    /// The applications, in catalogue order.
    pub closed spec fn entries(self) -> Seq<AppInfo> {
        self.apps.pairs().map_values(|p: (String, AppInfo)| p.1)
    }

    /// The applications by identifier.
    pub closed spec fn by_id(self) -> Map<Seq<char>, AppInfo> {
        self.apps.as_map()
    }

    /// The catalogue of the given applications.
    pub fn new(apps: Vec<AppInfo>) -> (r: Catalog)
        ensures
            r.wf(),
            r.by_id() == catalog_map(apps@),
            lists_each_once(r.entries(), r.by_id()),
    {
        let mut store: Keyed<AppInfo> = Keyed::new();
        let ghost all = apps@;
        for app in iter: apps.into_iter()
            invariant
                store.wf(),
                forall|i: int| 0 <= i < store.pairs().len() ==> #[trigger] store.key_at(i) == store.pairs()[i].1.id@,
                iter.seq() == all,
                store.as_map() == catalog_map(all.take(iter.index() as int)),
        {
            let ghost k = iter.index() as int;
            let ghost old_store = store;
            let id = app.id.clone();
            store.insert(id, app);
            proof {
                assert(all.take(k + 1).drop_last() =~= all.take(k));
                assert forall|i: int| 0 <= i < store.pairs().len() implies #[trigger] store.key_at(i)
                    == store.pairs()[i].1.id@ by {
                    if i < old_store.pairs().len() {
                        assert(old_store.key_at(i) == old_store.pairs()[i].1.id@);
                    }
                }
            }
        }
        assert(all.take(all.len() as int) =~= all);
        let r = Catalog { apps: store };
        proof {
            r.lemma_lists_each_once();
        }
        r
    }

    /// The applications in catalogue order are the applications by
    /// identifier, each listed once.
    pub proof fn lemma_lists_each_once(self)
        requires
            self.wf(),
        ensures
            lists_each_once(self.entries(), self.by_id()),
    {
        let e = self.entries();
        assert forall|i: int| 0 <= i < e.len() implies self.by_id().dom().contains((#[trigger] e[i]).id@)
            && self.by_id()[e[i].id@] == e[i] by {
            self.apps.lemma_entry(i);
            assert(self.apps.key_at(i) == self.apps.pairs()[i].1.id@);
        }
        assert forall|i: int, j: int| 0 <= i < j < e.len() implies (#[trigger] e[i]).id@ != (
        #[trigger] e[j]).id@ by {
            assert(self.apps.key_at(i) == self.apps.pairs()[i].1.id@);
            assert(self.apps.key_at(j) == self.apps.pairs()[j].1.id@);
        }
        assert forall|k: Seq<char>| #[trigger] self.by_id().dom().contains(k) implies exists|i: int|
            0 <= i < e.len() && (#[trigger] e[i]).id@ == k by {
            let i = self.apps.index_of(k);
            assert(self.apps.key_at(i) == self.apps.pairs()[i].1.id@);
            assert(e[i].id@ == k);
        }
    }

    /// All applications, in catalogue order.
    pub fn all(&self) -> (r: Vec<AppInfo>)
        requires
            self.wf(),
        ensures
            r@ == self.entries(),
    {
        let mut r: Vec<AppInfo> = Vec::new();
        let mut i: usize = 0;
        while i < self.apps.len()
            invariant
                i <= self.apps.pairs().len(),
                r@ == self.entries().take(i as int),
            decreases self.apps.pairs().len() - i,
        {
            r.push(self.apps.entry(i).1.duplicate());
            i = i + 1;
            assert(r@ =~= self.entries().take(i as int));
        }
        assert(self.entries().take(i as int) =~= self.entries());
        r
    }

    /// The applications whose name starts with `term`, in catalogue order.
    pub fn search(&self, term: &str) -> (r: Vec<AppInfo>)
        requires
            self.wf(),
        ensures
            r@ == self.entries().filter(name_has_prefix(term@)),
    {
        let term_chars = chars_of(term);
        let mut r: Vec<AppInfo> = Vec::new();
        let mut i: usize = 0;
        while i < self.apps.len()
            invariant
                i <= self.apps.pairs().len(),
                term_chars@ == term@,
                r@ == self.entries().take(i as int).filter(name_has_prefix(term@)),
            decreases self.apps.pairs().len() - i,
        {
            let app = &self.apps.entry(i).1;
            proof {
                let pre = self.entries().take(i as int);
                assert(self.entries().take(i + 1) =~= pre.push(self.entries()[i as int]));
                pre.lemma_filter_push(self.entries()[i as int], name_has_prefix(term@));
            }
            if starts_with_chars(&chars_of(app.name.as_str()), &term_chars) {
                r.push(app.duplicate());
            }
            i = i + 1;
        }
        assert(self.entries().take(i as int) =~= self.entries());
        r
    }

    /// The application with this identifier.
    pub fn lookup(&self, id: &str) -> (r: Option<&AppInfo>)
        requires
            self.wf(),
        ensures
            r is Some <==> self.by_id().dom().contains(id@),
            r matches Some(a) ==> *a == self.by_id()[id@],
    {
        self.apps.get(id)
    }
}

proof fn lemma_filter_keeps_all(s: Seq<AppInfo>, term: Seq<char>)
    requires
        forall|i: int| 0 <= i < s.len() ==> #[trigger] name_has_prefix(term)(s[i]),
    ensures
        s.filter(name_has_prefix(term)) == s,
    decreases s.len(),
{
    reveal(Seq::filter);
    if s.len() > 0 {
        lemma_filter_keeps_all(s.drop_last(), term);
        assert(name_has_prefix(term)(s[s.len() - 1]));
        assert(s.drop_last().push(s.last()) =~= s);
    }
}

/// Searching for the empty term lists every application of the catalogue.
pub proof fn law_empty_search_lists_all(c: Catalog)
    ensures
        c.entries().filter(name_has_prefix(Seq::empty())) == c.entries(),
{
    let s = c.entries();
    assert forall|i: int| 0 <= i < s.len() implies #[trigger] name_has_prefix(Seq::empty())(s[i]) by {
        assert(s[i].name@.subrange(0, 0) =~= Seq::<char>::empty());
    }
    lemma_filter_keeps_all(s, Seq::empty());
}

/// Whether a launcher entry is shown for a search: the search is not empty
/// and the lower-cased name starts with it.
pub open spec fn shown_for(name: Seq<char>, search: Seq<char>) -> bool {
    search.len() > 0 && is_prefix(search, lowercase_spec(name))
}

/// Decides whether a launcher entry is shown for a search.
pub fn matches_filter(name: &str, search: &str) -> (r: bool)
    ensures
        r == shown_for(name@, search@),
{
    if search.is_empty() {
        return false;
    }
    let lowered = to_lowercase(name);
    starts_with_chars(&chars_of(lowered.as_str()), &chars_of(search))
}


/// Names ordered character by character by code point, a prefix first: the
/// order of `String`'s `Ord` (UTF-8 byte order is code point order).
pub open spec fn name_le(a: Seq<char>, b: Seq<char>) -> bool
    decreases a.len(),
{
    if a.len() == 0 {
        true
    } else if b.len() == 0 {
        false
    } else if a[0] < b[0] {
        true
    } else if a[0] > b[0] {
        false
    } else {
        name_le(a.drop_first(), b.drop_first())
    }
}

proof fn lemma_name_le_reflexive(a: Seq<char>)
    ensures
        name_le(a, a),
    decreases a.len(),
{
    if a.len() > 0 {
        lemma_name_le_reflexive(a.drop_first());
    }
}

proof fn lemma_name_le_total(a: Seq<char>, b: Seq<char>)
    ensures
        name_le(a, b) || name_le(b, a),
    decreases a.len(),
{
    if a.len() > 0 && b.len() > 0 && a[0] == b[0] {
        lemma_name_le_total(a.drop_first(), b.drop_first());
    }
}

proof fn lemma_name_le_transitive(a: Seq<char>, b: Seq<char>, c: Seq<char>)
    requires
        name_le(a, b),
        name_le(b, c),
    ensures
        name_le(a, c),
    decreases a.len(),
{
    if a.len() > 0 && b.len() > 0 && c.len() > 0 {
        if a[0] == b[0] && b[0] == c[0] {
            lemma_name_le_transitive(a.drop_first(), b.drop_first(), c.drop_first());
        }
    }
}

/// Compares two names in `name_le` order.
fn name_le_exec(a: &Vec<char>, b: &Vec<char>) -> (r: bool)
    ensures
        r == name_le(a@, b@),
{
    let mut i: usize = 0;
    assert(a@.subrange(0, a.len() as int) =~= a@);
    assert(b@.subrange(0, b.len() as int) =~= b@);
    while i < a.len() && i < b.len()
        invariant
            i <= a.len(),
            i <= b.len(),
            a@.subrange(0, i as int) == b@.subrange(0, i as int),
            name_le(a@, b@) == name_le(a@.subrange(i as int, a.len() as int), b@.subrange(
                i as int,
                b.len() as int,
            )),
        decreases a.len() - i,
    {
        if a[i] < b[i] {
            return true;
        }
        if a[i] > b[i] {
            return false;
        }
        proof {
            let sa = a@.subrange(i as int, a.len() as int);
            let sb = b@.subrange(i as int, b.len() as int);
            assert(sa.drop_first() =~= a@.subrange(i + 1, a.len() as int));
            assert(sb.drop_first() =~= b@.subrange(i + 1, b.len() as int));
            assert(a@[i as int] == b@[i as int]);
            assert(a@.subrange(0, i + 1) =~= a@.subrange(0, i as int).push(a@[i as int]));
            assert(b@.subrange(0, i + 1) =~= b@.subrange(0, i as int).push(b@[i as int]));
        }
        i = i + 1;
    }
    i == a.len()
}

/// Applications are sorted by name.
pub open spec fn sorted_by_name(s: Seq<AppInfo>) -> bool {
    forall|i: int, j: int| 0 <= i < j < s.len() ==> name_le(#[trigger] s[i].name@, #[trigger] s[j].name@)
}

/// The predicate "has this name".
pub open spec fn named(n: Seq<char>) -> spec_fn(AppInfo) -> bool {
    |a: AppInfo| a.name@ == n
}

/// Sorts applications by name, keeping applications with equal names in
/// their original order (what `sort_by` on the names does).
pub fn sort_by_name(apps: Vec<AppInfo>) -> (r: Vec<AppInfo>)
    ensures
        r@.len() == apps@.len(),
        sorted_by_name(r@),
        forall|n: Seq<char>| #[trigger] r@.filter(named(n)) == apps@.filter(named(n)),
{
    let ghost all = apps@;
    let mut r: Vec<AppInfo> = Vec::new();
    let mut keys: Vec<Vec<char>> = Vec::new();
    for app in iter: apps.into_iter()
        invariant
            iter.seq() == all,
            r@.len() == iter.index(),
            keys@.len() == r@.len(),
            forall|k: int| 0 <= k < keys@.len() ==> #[trigger] keys@[k]@ == r@[k].name@,
            sorted_by_name(r@),
            forall|n: Seq<char>| #[trigger] r@.filter(named(n)) == all.take(iter.index() as int).filter(named(n)),
    {
        let ghost idx = iter.index() as int;
        let key = chars_of(app.name.as_str());
        // first position holding a name strictly after the new one
        let mut p: usize = 0;
        while p < keys.len() && name_le_exec(&keys[p], &key)
            invariant
                p <= keys@.len(),
                keys@.len() == r@.len(),
                forall|k: int| 0 <= k < keys@.len() ==> #[trigger] keys@[k]@ == r@[k].name@,
                forall|k: int| 0 <= k < p ==> name_le(#[trigger] r@[k].name@, key@),
            decreases keys@.len() - p,
        {
            p = p + 1;
        }
        proof {
            // every name from position p on is strictly after the new one
            assert forall|k: int| p <= k < r@.len() implies !name_le(#[trigger] r@[k].name@, key@) by {
                assert(!name_le(r@[p as int].name@, key@));
                if k > p {
                    assert(name_le(r@[p as int].name@, r@[k].name@));
                    if name_le(r@[k].name@, key@) {
                        lemma_name_le_transitive(r@[p as int].name@, r@[k].name@, key@);
                    }
                }
            }
        }
        let ghost old_r = r@;
        let ghost old_keys = keys@;
        let ghost x = app;
        keys.insert(p, key);
        r.insert(p, app);
        proof {
            assert(r@ =~= old_r.subrange(0, p as int).push(x) + old_r.subrange(p as int, old_r.len() as int));
            assert forall|k: int| 0 <= k < keys@.len() implies #[trigger] keys@[k]@ == r@[k].name@ by {
                if k < p {
                } else if k == p {
                } else {
                    assert(keys@[k] == old_keys[k - 1]);
                    assert(r@[k] == old_r[k - 1]);
                }
            }
            assert forall|i: int, j: int| 0 <= i < j < r@.len() implies name_le(
                #[trigger] r@[i].name@,
                #[trigger] r@[j].name@,
            ) by {
                if j < p {
                    assert(r@[i] == old_r[i] && r@[j] == old_r[j]);
                } else if j == p {
                    assert(r@[i] == old_r[i]);
                } else if i < p {
                    assert(r@[i] == old_r[i] && r@[j] == old_r[j - 1]);
                } else if i == p {
                    assert(r@[j] == old_r[j - 1]);
                    lemma_name_le_total(x.name@, old_r[j - 1].name@);
                } else {
                    assert(r@[i] == old_r[i - 1] && r@[j] == old_r[j - 1]);
                }
            }
            assert forall|n: Seq<char>| #[trigger] r@.filter(named(n)) == all.take(idx + 1).filter(named(n)) by {
                let pre = old_r.subrange(0, p as int);
                let post = old_r.subrange(p as int, old_r.len() as int);
                assert(old_r =~= pre + post);
                Seq::filter_distributes_over_add(pre, post, named(n));
                Seq::filter_distributes_over_add(pre.push(x), post, named(n));
                pre.lemma_filter_push(x, named(n));
                assert(all.take(idx + 1) =~= all.take(idx).push(x));
                all.take(idx).lemma_filter_push(x, named(n));
                if x.name@ == n {
                    assert forall|k: int| 0 <= k < post.len() implies !named(n)(post[k]) by {
                        assert(post[k] == old_r[p + k]);
                        lemma_name_le_reflexive(n);
                    }
                    assert(post.filter(named(n)) =~= Seq::<AppInfo>::empty()) by {
                        broadcast use vstd::seq_lib::group_filter_ensures;
                        if post.filter(named(n)).len() > 0 {
                            let e = post.filter(named(n))[0];
                            post.lemma_filter_pred(named(n), 0);
                            assert(post.filter(named(n)).contains(e));
                            post.lemma_filter_contains_rev(named(n), e);
                            let k = choose|k: int| 0 <= k < post.len() && post[k] == e;
                            assert(!named(n)(post[k]));
                        }
                    }
                    assert(old_r.filter(named(n)) =~= pre.filter(named(n)));
                }
            }
        }
    }
    proof {
        assert(all.take(all.len() as int) =~= all);
    }
    r
}

/// A message of a launcher entry.
#[derive(Debug)]
pub enum EntryInput {
    /// The entry was clicked.
    Click,
    /// The search text changed.
    Filter(String),
}

/// A launcher entry: an application and whether it is shown.
pub struct LauncherEntry {
    pub app_info: AppInfo,
    pub visible: bool,
}

impl LauncherEntry {
    /// A hidden entry for an application.
    pub fn init_model(app_info: AppInfo) -> (r: LauncherEntry)
        ensures
            r.app_info == app_info,
            !r.visible,
    {
        LauncherEntry { app_info, visible: false }
    }

    /// Handles a message: a click asks to launch the application (by its
    /// identifier), a new search text decides whether the entry is shown.
    pub fn update(&mut self, message: EntryInput) -> (launch: Option<String>)
        ensures
            final(self).app_info == old(self).app_info,
            match message {
                EntryInput::Click => launch == Some(old(self).app_info.id) && final(self).visible
                    == old(self).visible,
                EntryInput::Filter(search) => launch is None && final(self).visible == shown_for(
                    old(self).app_info.name@,
                    search@,
                ),
            },
    {
        match message {
            EntryInput::Click => Some(self.app_info.id.clone()),
            EntryInput::Filter(search) => {
                self.visible = matches_filter(self.app_info.name.as_str(), search.as_str());
                None
            },
        }
    }
}

} // verus!
