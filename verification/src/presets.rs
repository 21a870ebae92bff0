//! Preset banks, categories and the preset browser of the editor.
//!
//! A preset's sound parameters are handled by the host; the browser only
//! reads each preset's name and categories.  There are two banks, factory
//! (index 0) and user (index 1).  Each preset belongs to its first category,
//! or to "General" when it has none.  The browser lists the categories of the
//! selected bank (for the user bank, the category folders found on disk come
//! first), the presets of the selected category, and the selected preset.

use vstd::prelude::*;
use vstd::string::*;

use crate::text::{chars_of, lowercase, sanitize_component, spec_sanitize, str_to_lowercase};

verus! {

/// Where a preset comes from.
#[derive(Debug, Clone, Copy, PartialEq, Eq, Structural)]
pub enum PresetOrigin {
    Factory,
    User,
}

impl Default for PresetOrigin {
    fn default() -> (o: Self)
        ensures
            o == PresetOrigin::Factory,
    {
        PresetOrigin::Factory
    }
}

/// Value of the filter-trigger setting in a preset that does not name it:
/// trigger mode, the fire-and-forget envelope suited to kick drums.
pub fn default_filter_env_trigger() -> (b: bool)
    ensures
        b,
{
    true
}

/// What the browser knows of a preset.
pub struct PresetInfo {
    pub name: String,
    pub categories: Vec<String>,
}

/// The category name used for presets without one.
pub open spec fn general() -> Seq<char> {
    seq!['G', 'e', 'n', 'e', 'r', 'a', 'l']
}

/// The label shown when the selected category has no preset.
pub open spec fn no_presets_label() -> Seq<char> {
    seq!['(', 'n', 'o', ' ', 'p', 'r', 'e', 's', 'e', 't', 's', ')']
}

/// The texts of a list of strings.
pub open spec fn strings_view(v: Seq<String>) -> Seq<Seq<char>> {
    v.map_values(|s: String| s@)
}

/// The category a preset is filed under: its first category, or "General".
pub open spec fn primary_category(p: PresetInfo) -> Seq<char> {
    if p.categories@.len() > 0 {
        p.categories@[0]@
    } else {
        general()
    }
}

/// Appends to `acc`, in order, each item of `items` that is not in it yet.
pub open spec fn add_unique(acc: Seq<Seq<char>>, items: Seq<Seq<char>>) -> Seq<Seq<char>>
    decreases items.len(),
{
    if items.len() == 0 {
        acc
    } else {
        let prev = add_unique(acc, items.drop_last());
        if prev.contains(items.last()) {
            prev
        } else {
            prev.push(items.last())
        }
    }
}

/// The presets of a bank: factory (0), user (1), none for any other index.
pub open spec fn bank_presets(factory: Seq<PresetInfo>, user: Seq<PresetInfo>, bank: usize) -> Seq<
    PresetInfo,
> {
    if bank == 0 {
        factory
    } else if bank == 1 {
        user
    } else {
        Seq::empty()
    }
}

/// The categories offered for a bank: for the user bank the category folders
/// first, then the categories of the bank's presets in order, each once;
/// "General" alone when that gives none.
pub open spec fn spec_category_names(
    factory: Seq<PresetInfo>,
    user: Seq<PresetInfo>,
    folders: Seq<Seq<char>>,
    bank: usize,
) -> Seq<Seq<char>> {
    let start = if bank == 1 {
        add_unique(Seq::empty(), folders)
    } else {
        Seq::empty()
    };
    let cats = add_unique(
        start,
        bank_presets(factory, user, bank).map_values(|p: PresetInfo| primary_category(p)),
    );
    if cats.len() == 0 {
        seq![general()]
    } else {
        cats
    }
}

/// Indices, in order, of the first `n` presets filed under category `c`.
pub open spec fn spec_matching(ps: Seq<PresetInfo>, c: Seq<char>, n: nat) -> Seq<usize>
    decreases n,
{
    if n == 0 {
        Seq::empty()
    } else {
        let prev = spec_matching(ps, c, (n - 1) as nat);
        if primary_category(ps[n - 1]) == c {
            prev.push((n - 1) as usize)
        } else {
            prev
        }
    }
}

/// All indices below `n`.
pub open spec fn all_indices(n: nat) -> Seq<usize> {
    Seq::new(n, |i: int| i as usize)
}

/// The presets listed for a bank and a selected category: those filed under
/// the category, or the whole bank when the category index is out of range or
/// no preset is filed under it.
pub open spec fn spec_listing(ps: Seq<PresetInfo>, cats: Seq<Seq<char>>, cat: usize) -> Seq<usize> {
    if ps.len() == 0 {
        Seq::empty()
    } else if cat < cats.len() && spec_matching(ps, cats[cat as int], ps.len()).len() > 0 {
        spec_matching(ps, cats[cat as int], ps.len())
    } else {
        all_indices(ps.len())
    }
}

/// The names shown for a listing.
pub open spec fn spec_names(ps: Seq<PresetInfo>, listing: Seq<usize>) -> Seq<Seq<char>> {
    if listing.len() == 0 {
        seq![no_presets_label()]
    } else {
        Seq::new(listing.len(), |k: int| ps[listing[k] as int].name@)
    }
}

/// The selected preset index after the listing was rebuilt.
pub open spec fn spec_kept_selection(listing: Seq<usize>, selected: usize) -> usize {
    if listing.len() == 0 || selected >= listing.len() {
        0
    } else {
        selected
    }
}

/// "General" as a string.
pub fn general_string() -> (s: String)
    ensures
        s@ == general(),
{
    proof {
        reveal_strlit("General");
    }
    String::from_str("General")
}

/// The category a preset is filed under (see `primary_category`).
pub fn preset_category(p: &PresetInfo) -> (c: String)
    ensures
        c@ == primary_category(*p),
{
    if p.categories.len() > 0 {
        p.categories[0].clone()
    } else {
        general_string()
    }
}

/// Whether `v` holds a string equal to `s`.
pub fn contains_string(v: &Vec<String>, s: &String) -> (b: bool)
    ensures
        b == strings_view(v@).contains(s@),
{
    let mut i: usize = 0;
    while i < v.len()
        invariant
            i <= v.len(),
            forall|j: int| 0 <= j < i ==> v@[j]@ != s@,
        decreases v.len() - i,
    {
        if v[i] == *s {
            proof {
                assert(strings_view(v@)[i as int] == s@);
            }
            return true;
        }
        i += 1;
    }
    proof {
        if strings_view(v@).contains(s@) {
            let j = choose|j: int| 0 <= j < strings_view(v@).len() && strings_view(v@)[j] == s@;
            assert(v@[j]@ == s@);
        }
    }
    false
}

/// Appending one string extends the texts by its text.
proof fn lemma_strings_view_push(v: Seq<String>, s: String)
    ensures
        strings_view(v.push(s)) == strings_view(v).push(s@),
{
    assert(strings_view(v.push(s)) =~= strings_view(v).push(s@));
}

/// One step of `add_unique` over a prefix.
proof fn lemma_add_unique_step(acc: Seq<Seq<char>>, items: Seq<Seq<char>>, i: int)
    requires
        0 <= i < items.len(),
    ensures
        add_unique(acc, items.take(i + 1)) == (if add_unique(acc, items.take(i)).contains(items[i]) {
            add_unique(acc, items.take(i))
        } else {
            add_unique(acc, items.take(i)).push(items[i])
        }),
{
    assert(items.take(i + 1).drop_last() =~= items.take(i));
    assert(items.take(i + 1).last() == items[i]);
}

/// `spec_matching` lists at most `n` indices, all below `n`.
proof fn lemma_matching_len(ps: Seq<PresetInfo>, c: Seq<char>, n: nat)
    ensures
        spec_matching(ps, c, n).len() <= n,
        forall|k: int|
            0 <= k < spec_matching(ps, c, n).len() ==> #[trigger] spec_matching(ps, c, n)[k] < n,
    decreases n,
{
    if n > 0 {
        lemma_matching_len(ps, c, (n - 1) as nat);
    }
}

/// Appends `s` unless an equal string is already in `result`.
fn push_unique(result: &mut Vec<String>, s: String)
    ensures
        strings_view(final(result)@) == (if strings_view(old(result)@).contains(s@) {
            strings_view(old(result)@)
        } else {
            strings_view(old(result)@).push(s@)
        }),
{
    if !contains_string(result, &s) {
        proof {
            lemma_strings_view_push(result@, s);
        }
        result.push(s);
    }
}

/// Whether `s` ends with `suffix`.
pub open spec fn ends_with(s: Seq<char>, suffix: Seq<char>) -> bool {
    s.len() >= suffix.len() && s.subrange(s.len() - suffix.len(), s.len() as int) == suffix
}

/// A file name for a preset saved under `stem`: the stem itself if it
/// already ends in ".json" in any letter case, else the stem with ".json"
/// appended.
pub open spec fn spec_json_file_name(stem: Seq<char>) -> Seq<char> {
    if ends_with(lowercase(stem), ".json"@) {
        stem
    } else {
        stem + ".json"@
    }
}

/// Categories of a preset read from the user directory: its own, or, when it
/// names none, the first component of its path below the user directory.
pub open spec fn spec_user_preset_categories(
    categories: Seq<Seq<char>>,
    first_component: Option<Seq<char>>,
) -> Seq<Seq<char>> {
    if categories.len() == 0 && first_component is Some {
        seq![first_component->0]
    } else {
        categories
    }
}

/// Categories of a preset read from the user directory (see
/// `spec_user_preset_categories`).
pub fn user_preset_categories(categories: Vec<String>, first_component: Option<String>) -> (r: Vec<
    String,
>)
    ensures
        strings_view(r@) == spec_user_preset_categories(
            strings_view(categories@),
            match first_component {
                Some(c) => Some(c@),
                None => None,
            },
        ),
{
    if categories.len() == 0 {
        match first_component {
            Some(c) => {
                let mut r: Vec<String> = Vec::new();
                r.push(c);
                assert(strings_view(r@) =~= seq![r@[0]@]);
                r
            },
            None => categories,
        }
    } else {
        categories
    }
}

/// A file name ending in ".json" for `stem` (see `spec_json_file_name`).
pub fn json_file_name(stem: String) -> (r: String)
    ensures
        r@ == spec_json_file_name(stem@),
{
    proof {
        reveal_strlit(".json");
    }
    let lower = str_to_lowercase(stem.as_str());
    let l = chars_of(lower.as_str());
    let ext = chars_of(".json");
    let n = l.len();
    let mut ends = n >= 5;
    if ends {
        let mut i: usize = 0;
        while i < 5
            invariant
                n == l@.len() >= 5,
                ext@ == ".json"@,
                ext@.len() == 5,
                i <= 5,
                ends == forall|k: int| 0 <= k < i ==> l@[n - 5 + k] == ext@[k],
            decreases 5 - i,
        {
            if l[n - 5 + i] != ext[i] {
                ends = false;
            }
            i += 1;
        }
        assert(ends == (l@.subrange(n - 5, n as int) =~= ext@));
    }
    if ends {
        stem
    } else {
        let mut r = stem;
        r.append(".json");
        r
    }
}

/// The preset browser of the editor.
pub struct PresetBrowser {
    factory_presets: Vec<PresetInfo>,
    user_presets: Vec<PresetInfo>,
    user_folders: Vec<String>,
    bank_names: Vec<String>,
    selected_bank: usize,
    category_names: Vec<String>,
    selected_category: usize,
    preset_names: Vec<String>,
    selected_preset: usize,
    filtered_presets: Vec<usize>,
}

impl PresetBrowser {
    /// Factory presets.
    pub closed spec fn factory(&self) -> Seq<PresetInfo> {
        self.factory_presets@
    }

    /// User presets.
    pub closed spec fn user(&self) -> Seq<PresetInfo> {
        self.user_presets@
    }

    /// Category folders found in the user preset directory.
    pub closed spec fn folders(&self) -> Seq<Seq<char>> {
        strings_view(self.user_folders@)
    }

    /// Names of the banks.
    pub closed spec fn banks(&self) -> Seq<Seq<char>> {
        strings_view(self.bank_names@)
    }

    /// Selected bank index.
    pub closed spec fn bank(&self) -> usize {
        self.selected_bank
    }

    /// Offered categories.
    pub closed spec fn categories(&self) -> Seq<Seq<char>> {
        strings_view(self.category_names@)
    }

    /// Selected category index.
    pub closed spec fn category(&self) -> usize {
        self.selected_category
    }

    /// Listed presets, as indices into the selected bank.
    pub closed spec fn listing(&self) -> Seq<usize> {
        self.filtered_presets@
    }

    /// Names shown in the preset list.
    pub closed spec fn names(&self) -> Seq<Seq<char>> {
        strings_view(self.preset_names@)
    }

    /// Selected preset index.
    pub closed spec fn preset(&self) -> usize {
        self.selected_preset
    }

    /// The presets of the selected bank.
    pub open spec fn current_bank(&self) -> Seq<PresetInfo> {
        bank_presets(self.factory(), self.user(), self.bank())
    }

    /// Every listed index designates a preset of the selected bank.
    #[verifier::type_invariant]
    closed spec fn listing_in_bank(&self) -> bool {
        forall|k: int|
            0 <= k < self.filtered_presets@.len() ==> #[trigger] self.filtered_presets@[k]
                < bank_presets(self.factory_presets@, self.user_presets@, self.selected_bank).len()
    }

    /// The state that the last rebuild of categories and listing produced
    /// from the banks, the folders and the selections.
    pub open spec fn consistent(&self) -> bool {
        &&& self.categories() == spec_category_names(
            self.factory(),
            self.user(),
            self.folders(),
            self.bank(),
        )
        &&& self.listing() == spec_listing(self.current_bank(), self.categories(), self.category())
        &&& self.names() == spec_names(self.current_bank(), self.listing())
    }

    /// Categories offered for `bank` (see `spec_category_names`).
    fn compute_category_names(&self, bank: usize) -> (r: Vec<String>)
        ensures
            strings_view(r@) == spec_category_names(
                self.factory(),
                self.user(),
                self.folders(),
                bank,
            ),
    {
        let mut result: Vec<String> = Vec::new();
        if bank == 1 {
            let n = self.user_folders.len();
            for i in 0..n
                invariant
                    n == self.user_folders@.len(),
                    strings_view(result@) == add_unique(
                        Seq::empty(),
                        self.folders().take(i as int),
                    ),
            {
                proof {
                    lemma_add_unique_step(Seq::empty(), self.folders(), i as int);
                }
                push_unique(&mut result, self.user_folders[i].clone());
            }
            assert(self.folders().take(n as int) =~= self.folders());
        }
        let ghost start = strings_view(result@);
        assert(start == (if bank == 1 {
            add_unique(Seq::empty(), self.folders())
        } else {
            Seq::<Seq<char>>::empty()
        })) by {
            if bank != 1 {
                assert(start =~= Seq::<Seq<char>>::empty());
            }
        }
        let ghost cats = bank_presets(self.factory(), self.user(), bank).map_values(
            |p: PresetInfo| primary_category(p),
        );
        if bank == 0 || bank == 1 {
            let ps = if bank == 0 {
                &self.factory_presets
            } else {
                &self.user_presets
            };
            assert(ps@ == bank_presets(self.factory(), self.user(), bank));
            let n = ps.len();
            for i in 0..n
                invariant
                    n == ps@.len(),
                    ps@ == bank_presets(self.factory(), self.user(), bank),
                    cats == ps@.map_values(|p: PresetInfo| primary_category(p)),
                    strings_view(result@) == add_unique(start, cats.take(i as int)),
            {
                proof {
                    lemma_add_unique_step(start, cats, i as int);
                }
                push_unique(&mut result, preset_category(&ps[i]));
            }
            assert(cats.take(n as int) =~= cats);
        } else {
            assert(cats =~= Seq::<Seq<char>>::empty());
            assert(cats.take(0) =~= cats);
        }
        assert(strings_view(result@) == add_unique(start, cats));
        if result.len() == 0 {
            result.push(general_string());
            assert(strings_view(result@) =~= seq![general()]);
        }
        result
    }

    /// Indices of the presets listed for the current selection.
    fn compute_listing(&self) -> (r: Vec<usize>)
        ensures
            r@ == spec_listing(self.current_bank(), self.categories(), self.category()),
            forall|k: int| 0 <= k < r@.len() ==> #[trigger] r@[k] < self.current_bank().len(),
    {
        let bank = self.selected_bank;
        if bank != 0 && bank != 1 {
            return Vec::new();
        }
        let ps = if bank == 0 {
            &self.factory_presets
        } else {
            &self.user_presets
        };
        assert(ps@ == self.current_bank());
        let n = ps.len();
        if n == 0 {
            return Vec::new();
        }
        if self.selected_category < self.category_names.len() {
            let name = &self.category_names[self.selected_category];
            let ghost c = name@;
            assert(c == self.categories()[self.category() as int]);
            let mut matching: Vec<usize> = Vec::new();
            for i in 0..n
                invariant
                    n == ps@.len(),
                    c == name@,
                    matching@ == spec_matching(ps@, c, i as nat),
            {
                let cat = preset_category(&ps[i]);
                proof {
                    assert(ps@[i as int] == ps[i as int]);
                }
                if cat == *name {
                    matching.push(i);
                }
            }
            if matching.len() > 0 {
                proof {
                    lemma_matching_len(ps@, c, n as nat);
                }
                return matching;
            }
        }
        let mut all: Vec<usize> = Vec::new();
        for i in 0..n
            invariant
                all@ == all_indices(i as nat),
        {
            all.push(i);
            assert(all@ =~= all_indices((i + 1) as nat));
        }
        all
    }

    /// Names of the listed presets, or the placeholder when none is listed.
    fn compute_names(&self, listing: &Vec<usize>) -> (r: Vec<String>)
        requires
            forall|k: int|
                0 <= k < listing@.len() ==> #[trigger] listing@[k] < self.current_bank().len(),
        ensures
            strings_view(r@) == spec_names(self.current_bank(), listing@),
    {
        let mut names: Vec<String> = Vec::new();
        if listing.len() == 0 {
            proof {
                reveal_strlit("(no presets)");
            }
            let label = String::from_str("(no presets)");
            assert(label@ =~= no_presets_label());
            names.push(label);
            assert(strings_view(names@) =~= seq![no_presets_label()]);
            return names;
        }
        let bank = self.selected_bank;
        let ps = if bank == 0 {
            &self.factory_presets
        } else {
            &self.user_presets
        };
        assert(bank == 0 || bank == 1) by {
            assert(listing@[0] < self.current_bank().len());
        }
        assert(ps@ == self.current_bank());
        let n = listing.len();
        for k in 0..n
            invariant
                n == listing@.len(),
                ps@ == self.current_bank(),
                forall|j: int| 0 <= j < listing@.len() ==> #[trigger] listing@[j] < ps@.len(),
                names@.len() == k,
                forall|j: int|
                    0 <= j < k ==> #[trigger] names@[j]@ == ps@[listing@[j] as int].name@,
        {
            let idx = listing[k];
            names.push(ps[idx].name.clone());
        }
        assert(strings_view(names@) =~= spec_names(self.current_bank(), listing@));
        names
    }

    /// Rebuilds the listing and the names for the current bank and category;
    /// keeps the selected preset if it is still in range, else selects the
    /// first.
    fn refresh_preset_list(&mut self)
        ensures
            final(self).factory() == old(self).factory(),
            final(self).user() == old(self).user(),
            final(self).folders() == old(self).folders(),
            final(self).banks() == old(self).banks(),
            final(self).bank() == old(self).bank(),
            final(self).categories() == old(self).categories(),
            final(self).category() == old(self).category(),
            final(self).listing() == spec_listing(
                old(self).current_bank(),
                old(self).categories(),
                old(self).category(),
            ),
            final(self).names() == spec_names(old(self).current_bank(), final(self).listing()),
            final(self).preset() == spec_kept_selection(
                final(self).listing(),
                old(self).preset(),
            ),
    {
        let listing = self.compute_listing();
        let names = self.compute_names(&listing);
        let keep = listing.len() > 0 && self.selected_preset < listing.len();
        self.filtered_presets = listing;
        self.preset_names = names;
        if !keep {
            self.selected_preset = 0;
        }
    }

    /// Recomputes the categories of the selected bank, falls back to the
    /// first category if the selected one is out of range, and rebuilds the
    /// listing.
    fn update_category_options(&mut self)
        ensures
            final(self).factory() == old(self).factory(),
            final(self).user() == old(self).user(),
            final(self).folders() == old(self).folders(),
            final(self).banks() == old(self).banks(),
            final(self).bank() == old(self).bank(),
            final(self).categories() == spec_category_names(
                old(self).factory(),
                old(self).user(),
                old(self).folders(),
                old(self).bank(),
            ),
            final(self).category() == (if old(self).category() < final(self).categories().len() {
                old(self).category()
            } else {
                0
            }),
            final(self).consistent(),
            final(self).preset() == spec_kept_selection(
                final(self).listing(),
                old(self).preset(),
            ),
    {
        proof {
            use_type_invariant(&*self);
        }
        let cats = self.compute_category_names(self.selected_bank);
        self.category_names = cats;
        if self.selected_category >= self.category_names.len() {
            self.selected_category = 0;
        }
        self.refresh_preset_list();
    }

    /// A browser over the given banks, showing the factory bank, its first
    /// category and the first preset.  `user_folders` are the category folders
    /// found in the user preset directory, in path order.
    pub fn new(
        factory_presets: Vec<PresetInfo>,
        user_presets: Vec<PresetInfo>,
        user_folders: Vec<String>,
    ) -> (b: Self)
        ensures
            b.factory() == factory_presets@,
            b.user() == user_presets@,
            b.folders() == strings_view(user_folders@),
            b.banks() == seq![seq!['F', 'a', 'c', 't', 'o', 'r', 'y'], seq!['U', 's', 'e', 'r']],
            b.bank() == 0,
            b.category() == 0,
            b.preset() == 0,
            b.consistent(),
    {
        proof {
            reveal_strlit("Factory");
            reveal_strlit("User");
        }
        let factory_name = String::from_str("Factory");
        let user_name = String::from_str("User");
        assert(factory_name@ =~= seq!['F', 'a', 'c', 't', 'o', 'r', 'y']);
        assert(user_name@ =~= seq!['U', 's', 'e', 'r']);
        let mut bank_names: Vec<String> = Vec::new();
        bank_names.push(factory_name);
        bank_names.push(user_name);
        let mut b = PresetBrowser {
            factory_presets,
            user_presets,
            user_folders,
            bank_names,
            selected_bank: 0,
            category_names: Vec::new(),
            selected_category: 0,
            preset_names: Vec::new(),
            selected_preset: 0,
            filtered_presets: Vec::new(),
        };
        assert(b.banks() =~= seq![seq!['F', 'a', 'c', 't', 'o', 'r', 'y'], seq!['U', 's', 'e', 'r']]);
        b.update_category_options();
        b
    }

    /// Selects a bank (the user's category folders are read anew for it),
    /// returns to its first category and rebuilds the lists.
    pub fn select_bank(&mut self, index: usize, user_folders: Vec<String>)
        ensures
            final(self).factory() == old(self).factory(),
            final(self).user() == old(self).user(),
            final(self).folders() == strings_view(user_folders@),
            final(self).banks() == old(self).banks(),
            final(self).bank() == index,
            final(self).category() == 0,
            final(self).consistent(),
            final(self).preset() == spec_kept_selection(
                final(self).listing(),
                old(self).preset(),
            ),
    {
        self.filtered_presets = Vec::new();
        self.selected_bank = index;
        self.user_folders = user_folders;
        self.selected_category = 0;
        self.update_category_options();
    }

    /// Selects a category by index and rebuilds the listing.  An index out of
    /// range lists the whole bank.
    pub fn select_category(&mut self, index: usize)
        ensures
            final(self).factory() == old(self).factory(),
            final(self).user() == old(self).user(),
            final(self).folders() == old(self).folders(),
            final(self).banks() == old(self).banks(),
            final(self).bank() == old(self).bank(),
            final(self).category() == index,
            final(self).categories() == old(self).categories(),
            final(self).listing() == spec_listing(
                final(self).current_bank(),
                final(self).categories(),
                index,
            ),
            final(self).names() == spec_names(final(self).current_bank(), final(self).listing()),
            old(self).consistent() ==> final(self).consistent(),
            final(self).preset() == spec_kept_selection(
                final(self).listing(),
                old(self).preset(),
            ),
    {
        proof {
            use_type_invariant(&*self);
        }
        self.selected_category = index;
        self.refresh_preset_list();
    }

    /// Selects a preset of the listing by index; returns the index, in the
    /// selected bank, of the preset to load, if the listing has that entry.
    pub fn select_preset(&mut self, index: usize) -> (r: Option<usize>)
        ensures
            final(self).factory() == old(self).factory(),
            final(self).user() == old(self).user(),
            final(self).folders() == old(self).folders(),
            final(self).banks() == old(self).banks(),
            final(self).bank() == old(self).bank(),
            final(self).categories() == old(self).categories(),
            final(self).category() == old(self).category(),
            final(self).listing() == old(self).listing(),
            final(self).names() == old(self).names(),
            final(self).preset() == index,
            r == (if index < old(self).listing().len() {
                Some(old(self).listing()[index as int])
            } else {
                None
            }),
            r matches Some(i) ==> i < final(self).current_bank().len(),
    {
        proof {
            use_type_invariant(&*self);
        }
        self.selected_preset = index;
        self.load_selection()
    }

    /// The index, in the selected bank, of the selected preset, if the
    /// listing has an entry at the selected position.
    pub fn load_selection(&self) -> (r: Option<usize>)
        ensures
            r == (if self.preset() < self.listing().len() {
                Some(self.listing()[self.preset() as int])
            } else {
                None
            }),
            r matches Some(i) ==> i < self.current_bank().len(),
    {
        proof {
            use_type_invariant(self);
        }
        if self.selected_preset < self.filtered_presets.len() {
            Some(self.filtered_presets[self.selected_preset])
        } else {
            None
        }
    }

    /// Names of the banks.
    pub fn bank_names(&self) -> (r: &Vec<String>)
        ensures
            strings_view(r@) == self.banks(),
    {
        &self.bank_names
    }

    /// Selected bank index.
    pub fn selected_bank(&self) -> (r: usize)
        ensures
            r == self.bank(),
    {
        self.selected_bank
    }

    /// Offered categories.
    pub fn category_names(&self) -> (r: &Vec<String>)
        ensures
            strings_view(r@) == self.categories(),
    {
        &self.category_names
    }

    /// Selected category index.
    pub fn selected_category(&self) -> (r: usize)
        ensures
            r == self.category(),
    {
        self.selected_category
    }

    /// Names shown in the preset list.
    pub fn preset_names(&self) -> (r: &Vec<String>)
        ensures
            strings_view(r@) == self.names(),
    {
        &self.preset_names
    }

    /// Selected preset index.
    pub fn selected_preset(&self) -> (r: usize)
        ensures
            r == self.preset(),
    {
        self.selected_preset
    }

    /// Listed presets, as indices into the selected bank.
    pub fn filtered_presets(&self) -> (r: &Vec<usize>)
        ensures
            r@ == self.listing(),
            forall|k: int| 0 <= k < r@.len() ==> #[trigger] r@[k] < self.current_bank().len(),
    {
        proof {
            use_type_invariant(self);
        }
        &self.filtered_presets
    }

    /// The category a preset is saved under: the selected category, or
    /// "User" when none is selected.
    pub open spec fn spec_save_category(&self) -> Seq<char> {
        if self.category() < self.categories().len() {
            self.categories()[self.category() as int]
        } else {
            "User"@
        }
    }

    /// The name a save starts from: the selected preset's, or
    /// "kick-synth-preset" when none is selected.
    pub open spec fn spec_save_name(&self) -> Seq<char> {
        if self.preset() < self.listing().len() {
            self.current_bank()[self.listing()[self.preset() as int] as int].name@
        } else {
            "kick-synth-preset"@
        }
    }

    /// Where a save is proposed: the sanitised category folder and a
    /// sanitised ".json" file name.
    pub fn save_target(&self) -> (r: (String, String))
        ensures
            r.0@ == spec_sanitize(self.spec_save_category()),
            r.1@ == spec_json_file_name(spec_sanitize(self.spec_save_name())),
            self.preset() < self.listing().len() ==> r.1@ == spec_json_file_name(
                spec_sanitize(self.current_bank()[self.listing()[self.preset() as int] as int].name@),
            ),
            self.consistent() && self.preset() < self.listing().len() ==> r.1@
                == spec_json_file_name(spec_sanitize(self.names()[self.preset() as int])),
    {
        proof {
            use_type_invariant(self);
        }
        let folder = if self.selected_category < self.category_names.len() {
            sanitize_component(self.category_names[self.selected_category].as_str())
        } else {
            sanitize_component("User")
        };
        let name = if self.selected_preset < self.filtered_presets.len() {
            let idx = self.filtered_presets[self.selected_preset];
            let ps = if self.selected_bank == 0 {
                &self.factory_presets
            } else {
                &self.user_presets
            };
            assert(ps@ == self.current_bank());
            sanitize_component(ps[idx].name.as_str())
        } else {
            sanitize_component("kick-synth-preset")
        };
        (folder, json_file_name(name))
    }

    /// Categories given to a preset saved now: the selected category alone,
    /// or none when no category is selected.
    pub fn save_categories(&self) -> (r: Vec<String>)
        ensures
            strings_view(r@) == (if self.category() < self.categories().len() {
                seq![self.categories()[self.category() as int]]
            } else {
                Seq::<Seq<char>>::empty()
            }),
    {
        let mut r: Vec<String> = Vec::new();
        if self.selected_category < self.category_names.len() {
            r.push(self.category_names[self.selected_category].clone());
            assert(strings_view(r@) =~= seq![self.categories()[self.category() as int]]);
        } else {
            assert(strings_view(r@) =~= Seq::<Seq<char>>::empty());
        }
        r
    }

    /// Replaces the user bank (after a save, from a fresh scan of the user
    /// directory); when the user bank is shown, its categories and listing are
    /// rebuilt.
    pub fn reload_user_presets(&mut self, user_presets: Vec<PresetInfo>, user_folders: Vec<String>)
        ensures
            final(self).factory() == old(self).factory(),
            final(self).user() == user_presets@,
            final(self).folders() == strings_view(user_folders@),
            final(self).banks() == old(self).banks(),
            final(self).bank() == old(self).bank(),
            old(self).bank() == 1 ==> final(self).consistent(),
            old(self).bank() == 1 ==> final(self).category() == (if old(self).category()
                < final(self).categories().len() {
                old(self).category()
            } else {
                0
            }),
            old(self).bank() == 1 ==> final(self).preset() == spec_kept_selection(
                final(self).listing(),
                old(self).preset(),
            ),
            old(self).consistent() ==> final(self).consistent(),
            old(self).bank() != 1 ==> {
                &&& final(self).categories() == old(self).categories()
                &&& final(self).category() == old(self).category()
                &&& final(self).listing() == old(self).listing()
                &&& final(self).names() == old(self).names()
                &&& final(self).preset() == old(self).preset()
            },
    {
        proof {
            use_type_invariant(&*self);
        }
        if self.selected_bank == 1 {
            self.filtered_presets = Vec::new();
            self.user_presets = user_presets;
            self.user_folders = user_folders;
            self.update_category_options();
        } else {
            self.user_presets = user_presets;
            self.user_folders = user_folders;
        }
    }
}

/// `add_unique` keeps what it starts from as a prefix, adds exactly the
/// missing items, and never repeats one.
pub proof fn lemma_add_unique(acc: Seq<Seq<char>>, items: Seq<Seq<char>>)
    ensures
        add_unique(acc, items).len() >= acc.len(),
        add_unique(acc, items).take(acc.len() as int) == acc,
        forall|x: Seq<char>|
            #[trigger] add_unique(acc, items).contains(x) <==> (acc.contains(x) || items.contains(
                x,
            )),
        acc.no_duplicates() ==> add_unique(acc, items).no_duplicates(),
    decreases items.len(),
{
    if items.len() == 0 {
        assert(acc.take(acc.len() as int) =~= acc);
    } else {
        let init = items.drop_last();
        lemma_add_unique(acc, init);
        let prev = add_unique(acc, init);
        let last = items.last();
        assert forall|x: Seq<char>| #[trigger] items.contains(x) <==> (init.contains(x) || x == last) by {
            if items.contains(x) {
                let j = choose|j: int| 0 <= j < items.len() && items[j] == x;
                if j < items.len() - 1 {
                    assert(init[j] == x);
                }
            }
            if init.contains(x) {
                let j = choose|j: int| 0 <= j < init.len() && init[j] == x;
                assert(items[j] == x);
            }
            if x == last {
                assert(items[items.len() - 1] == x);
            }
        }
        if !prev.contains(last) {
            let next = prev.push(last);
            assert(next.take(acc.len() as int) =~= prev.take(acc.len() as int));
            assert forall|x: Seq<char>| #[trigger] next.contains(x) <==> (prev.contains(x) || x == last) by {
                if next.contains(x) {
                    let j = choose|j: int| 0 <= j < next.len() && next[j] == x;
                    if j < prev.len() {
                        assert(prev[j] == x);
                    }
                }
                if prev.contains(x) {
                    let j = choose|j: int| 0 <= j < prev.len() && prev[j] == x;
                    assert(next[j] == x);
                }
                if x == last {
                    assert(next[prev.len() as int] == x);
                }
            }
            if acc.no_duplicates() {
                assert forall|i: int, j: int|
                    0 <= i < next.len() && 0 <= j < next.len() && i != j implies next[i] != next[j] by {
                    if i < prev.len() && j < prev.len() {
                    } else if i == prev.len() {
                        assert(prev[j] == next[j]);
                    } else {
                        assert(prev[i] == next[i]);
                    }
                }
            }
        }
    }
}

/// `spec_matching` lists, in increasing order, exactly the indices below `n`
/// of presets filed under `c`.
pub proof fn lemma_matching(ps: Seq<PresetInfo>, c: Seq<char>, n: nat)
    requires
        n <= ps.len(),
        ps.len() <= usize::MAX,
    ensures
        forall|k: int|
            0 <= k < spec_matching(ps, c, n).len() ==> #[trigger] spec_matching(ps, c, n)[k] < n
                && primary_category(ps[spec_matching(ps, c, n)[k] as int]) == c,
        forall|k1: int, k2: int|
            0 <= k1 < k2 < spec_matching(ps, c, n).len() ==> #[trigger] spec_matching(ps, c, n)[k1]
                < #[trigger] spec_matching(ps, c, n)[k2],
        forall|i: int|
            0 <= i < n && #[trigger] primary_category(ps[i]) == c ==> spec_matching(
                ps,
                c,
                n,
            ).contains(i as usize),
    decreases n,
{
    if n > 0 {
        lemma_matching(ps, c, (n - 1) as nat);
        let prev = spec_matching(ps, c, (n - 1) as nat);
        let cur = spec_matching(ps, c, n);
        if primary_category(ps[n - 1]) == c {
            assert(cur == prev.push((n - 1) as usize));
            assert forall|k: int| 0 <= k < cur.len() implies #[trigger] cur[k] < n
                && primary_category(ps[cur[k] as int]) == c by {
                if k < prev.len() {
                    assert(cur[k] == prev[k]);
                }
            }
            assert forall|k1: int, k2: int| 0 <= k1 < k2 < cur.len() implies #[trigger] cur[k1]
                < #[trigger] cur[k2] by {
                assert(cur[k1] == prev[k1]);
                if k2 < prev.len() {
                    assert(cur[k2] == prev[k2]);
                }
            }
        } else {
            assert(cur == prev);
        }
        assert forall|i: int|
            0 <= i < n && #[trigger] primary_category(ps[i]) == c implies cur.contains(i as usize) by {
            if i < n - 1 {
                let j = choose|j: int| 0 <= j < prev.len() && prev[j] == i as usize;
                assert(cur[j] == i as usize);
            } else {
                assert(cur[prev.len() as int] == i as usize);
            }
        }
    }
}

/// The categories offered for a bank are never empty and name each category
/// once; for the user bank the category folders come first; they are exactly
/// the folders (user bank) and the categories of the bank's presets, or
/// "General" alone when there are none.
pub proof fn lemma_category_names_well_formed(
    factory: Seq<PresetInfo>,
    user: Seq<PresetInfo>,
    folders: Seq<Seq<char>>,
    bank: usize,
)
    ensures
        ({
            let names = spec_category_names(factory, user, folders, bank);
            let ps = bank_presets(factory, user, bank);
            &&& names.len() > 0
            &&& names.no_duplicates()
            &&& forall|i: int|
                0 <= i < ps.len() ==> names.contains(#[trigger] primary_category(ps[i]))
            &&& bank == 1 ==> forall|x: Seq<char>| #[trigger]
                folders.contains(x) ==> names.contains(x)
            &&& forall|x: Seq<char>| #[trigger]
                names.contains(x) ==> x == general() || (bank == 1 && folders.contains(x)) || exists|
                    i: int,
                |
                    0 <= i < ps.len() && #[trigger] primary_category(ps[i]) == x
        }),
{
    let ps = bank_presets(factory, user, bank);
    let cats = ps.map_values(|p: PresetInfo| primary_category(p));
    let start = if bank == 1 {
        add_unique(Seq::empty(), folders)
    } else {
        Seq::<Seq<char>>::empty()
    };
    lemma_add_unique(Seq::empty(), folders);
    lemma_add_unique(start, cats);
    let names = spec_category_names(factory, user, folders, bank);
    assert forall|i: int| 0 <= i < ps.len() implies names.contains(
        #[trigger] primary_category(ps[i]),
    ) by {
        assert(cats[i] == primary_category(ps[i]));
        assert(cats.contains(primary_category(ps[i])));
    }
    assert forall|x: Seq<char>| #[trigger]
        names.contains(x) implies x == general() || (bank == 1 && folders.contains(x)) || exists|
            i: int,
        |
            0 <= i < ps.len() && #[trigger] primary_category(ps[i]) == x by {
        if add_unique(start, cats).len() > 0 && cats.contains(x) {
            let i = choose|i: int| 0 <= i < cats.len() && cats[i] == x;
            assert(primary_category(ps[i]) == x);
        }
        if add_unique(start, cats).len() > 0 && start.contains(x) && bank != 1 {
            assert(false);
        }
    }
    if add_unique(start, cats).len() == 0 {
        assert(seq![general()].no_duplicates());
    }
}

/// The listing holds valid indices of the bank.  When the selected category
/// exists and some preset is filed under it, the listing is exactly those
/// presets, in bank order; otherwise it is the whole bank.
pub proof fn lemma_listing_filters(ps: Seq<PresetInfo>, cats: Seq<Seq<char>>, cat: usize)
    requires
        ps.len() <= usize::MAX,
    ensures
        forall|k: int|
            0 <= k < spec_listing(ps, cats, cat).len() ==> #[trigger] spec_listing(ps, cats, cat)[k]
                < ps.len(),
        (cat < cats.len() && exists|i: int|
            0 <= i < ps.len() && #[trigger] primary_category(ps[i]) == cats[cat as int]) ==> {
            &&& forall|k: int|
                0 <= k < spec_listing(ps, cats, cat).len() ==> primary_category(
                    ps[#[trigger] spec_listing(ps, cats, cat)[k] as int],
                ) == cats[cat as int]
            &&& forall|i: int|
                0 <= i < ps.len() && #[trigger] primary_category(ps[i]) == cats[cat as int]
                    ==> spec_listing(ps, cats, cat).contains(i as usize)
            &&& forall|k1: int, k2: int|
                0 <= k1 < k2 < spec_listing(ps, cats, cat).len() ==> #[trigger] spec_listing(
                    ps,
                    cats,
                    cat,
                )[k1] < #[trigger] spec_listing(ps, cats, cat)[k2]
        },
        !(cat < cats.len() && exists|i: int|
            0 <= i < ps.len() && #[trigger] primary_category(ps[i]) == cats[cat as int])
            ==> spec_listing(ps, cats, cat) == all_indices(ps.len()),
{
    if cat < cats.len() {
        lemma_matching(ps, cats[cat as int], ps.len());
        if exists|i: int| 0 <= i < ps.len() && #[trigger] primary_category(ps[i]) == cats[cat as int] {
            let i = choose|i: int|
                0 <= i < ps.len() && #[trigger] primary_category(ps[i]) == cats[cat as int];
            assert(spec_matching(ps, cats[cat as int], ps.len()).contains(i as usize));
        } else {
            if spec_matching(ps, cats[cat as int], ps.len()).len() > 0 {
                let m = spec_matching(ps, cats[cat as int], ps.len())[0];
                assert(primary_category(ps[m as int]) == cats[cat as int]);
            }
        }
    }
    if ps.len() == 0 {
        assert(spec_listing(ps, cats, cat) =~= all_indices(ps.len()));
    }
}

/// The preset list always shows at least one line, one per listed preset;
/// after a rebuild the selected preset designates one of those lines.
pub proof fn lemma_names_and_selection(ps: Seq<PresetInfo>, listing: Seq<usize>, selected: usize)
    requires
        forall|k: int| 0 <= k < listing.len() ==> #[trigger] listing[k] < ps.len(),
    ensures
        spec_names(ps, listing).len() >= 1,
        listing.len() > 0 ==> spec_names(ps, listing).len() == listing.len(),
        spec_kept_selection(listing, selected) < spec_names(ps, listing).len(),
        selected < listing.len() ==> spec_kept_selection(listing, selected) == selected,
{
}

/// A save proposes the name of the preset that loading the selection loads:
/// the bank preset designated by the selected line of the listing, which is
/// also the name shown on that line.  Only with no line selected does it fall
/// back to the default name.
pub proof fn lemma_save_name_is_selected_preset(b: PresetBrowser)
    ensures
        b.preset() < b.listing().len() ==> b.spec_save_name() == b.current_bank()[b.listing()[
            b.preset() as int] as int].name@,
        b.consistent() && b.preset() < b.listing().len() ==> b.spec_save_name()
            == b.names()[b.preset() as int],
        b.preset() >= b.listing().len() ==> b.spec_save_name() == "kick-synth-preset"@,
{
}

} // verus!
