//! The directory that is browsed, and its listing.
//!
//! The navigator does not read the disk. Whoever browses enumerates the
//! children of the directory and hands them in; the navigator decides which
//! of them are shown and in which order.

use vstd::prelude::*;
use vstd::string::*;
use vstd::seq_lib::*;
use crate::filesystem::{hidden_name, is_hidden_name, FileEntry, SortBy};
use crate::filesystem::order::{lemma_sorted_is_permutation, sort_entries, sorted_entries};
use crate::utils::text::{
    contains_text,
    has_substring,
    lowercase,
    lowercased,
    optional_text,
    same_text,
};

verus! {

/// The directory that is browsed: its path, how its listing is filtered and
/// sorted, and the listing itself.
pub struct DirNavigator {
    pub current_path: String,
    pub entries: Vec<FileEntry>,
    pub show_hidden: bool,
    pub sort_by: SortBy,
    pub filter: Option<String>,
}

/// What decides a listing: the directory, whether hidden entries are shown,
/// the filter and the sort key.
pub struct ListingRule {
    pub directory: Seq<char>,
    pub show_hidden: bool,
    pub filter: Option<Seq<char>>,
    pub order: SortBy,
}

impl ListingRule {
    /// Whether the listing shows `e`. It never shows the directory itself.
    /// It shows an entry whose name starts with a dot only if hidden
    /// entries are asked for. Where a filter is set it shows only entries
    /// whose name holds the filter, both taken in lower case.
    pub open spec fn keeps(self, e: FileEntry) -> bool {
        &&& e.path@ != self.directory
        &&& (self.show_hidden || !hidden_name(e.name@))
        &&& match self.filter {
            Some(f) => has_substring(lowercased(e.name@), lowercased(f)),
            None => true,
        }
    }

    /// Of the children that an enumeration gave, those that the listing
    /// shows, in the order of the enumeration. A child that could not be
    /// read stands there as `None` and is left out.
    pub open spec fn shown(self, listed: Seq<Option<FileEntry>>) -> Seq<FileEntry>
        decreases listed.len(),
    {
        if listed.len() == 0 {
            Seq::empty()
        } else {
            let before = self.shown(listed.drop_last());
            match listed.last() {
                Some(e) => if self.keeps(e) {
                    before.push(e)
                } else {
                    before
                },
                None => before,
            }
        }
    }

    /// The listing for the children that an enumeration gave: those that
    /// are shown, sorted by the rule's key.
    pub open spec fn listing(self, listed: Seq<Option<FileEntry>>) -> Seq<FileEntry> {
        sorted_entries(self.order, self.shown(listed))
    }

    /// Every entry that is shown was enumerated and is one that the rule
    /// keeps.
    pub proof fn lemma_shown_are_kept(self, listed: Seq<Option<FileEntry>>)
        ensures
            forall|e: FileEntry| #[trigger]
                self.shown(listed).contains(e) ==> self.keeps(e) && listed.contains(Some(e)),
        decreases listed.len(),
    {
        if listed.len() > 0 {
            let shorter = listed.drop_last();
            self.lemma_shown_are_kept(shorter);
            assert forall|e: FileEntry| #[trigger]
                self.shown(listed).contains(e) implies self.keeps(e) && listed.contains(
                Some(e),
            ) by {
                let i = choose|i: int| 0 <= i < self.shown(listed).len() && self.shown(listed)[i] == e;
                if i < self.shown(shorter).len() {
                    assert(self.shown(shorter)[i] == e);
                    assert(self.shown(shorter).contains(e));
                    let k = choose|k: int| 0 <= k < shorter.len() && shorter[k] == Some(e);
                    assert(listed[k] == Some(e));
                } else {
                    assert(listed[listed.len() - 1] == Some(e));
                }
            }
        }
    }

    /// The listing holds only entries that the rule keeps: never the
    /// directory itself, no hidden entry unless they are asked for, and
    /// under a filter only names that hold it.
    pub proof fn lemma_listing_holds_kept_only(self, listed: Seq<Option<FileEntry>>)
        ensures
            forall|i: int|
                0 <= i < self.listing(listed).len() ==> self.keeps(#[trigger] self.listing(listed)[i])
                    && listed.contains(Some(self.listing(listed)[i])),
            self.listing(listed).len() <= listed.len(),
    {
        broadcast use to_multiset_contains;

        self.lemma_shown_are_kept(listed);
        self.lemma_shown_len(listed);
        lemma_sorted_is_permutation(self.order, self.shown(listed));
        assert forall|i: int| 0 <= i < self.listing(listed).len() implies self.keeps(
            #[trigger] self.listing(listed)[i],
        ) && listed.contains(Some(self.listing(listed)[i])) by {
            let e = self.listing(listed)[i];
            assert(self.listing(listed).contains(e));
            assert(self.listing(listed).to_multiset().count(e) > 0);
            assert(self.shown(listed).contains(e));
        }
    }

    /// No more entries are shown than were enumerated.
    pub proof fn lemma_shown_len(self, listed: Seq<Option<FileEntry>>)
        ensures
            self.shown(listed).len() <= listed.len(),
        decreases listed.len(),
    {
        if listed.len() > 0 {
            self.lemma_shown_len(listed.drop_last());
        }
    }

    /// Under a filter that no enumerated name holds, lower case against
    /// lower case, the listing is empty.
    pub proof fn lemma_absent_filter_lists_nothing(self, listed: Seq<Option<FileEntry>>)
        requires
            self.filter is Some,
            forall|i: int|
                0 <= i < listed.len() ==> (#[trigger] listed[i] matches Some(e) ==> !has_substring(
                    lowercased(e.name@),
                    lowercased(self.filter->0),
                )),
        ensures
            self.listing(listed).len() == 0,
        decreases listed.len(),
    {
        self.lemma_shown_are_kept(listed);
        lemma_sorted_is_permutation(self.order, self.shown(listed));
        if self.shown(listed).len() > 0 {
            let e = self.shown(listed)[0];
            assert(self.shown(listed).contains(e));
            let k = choose|k: int| 0 <= k < listed.len() && listed[k] == Some(e);
            assert(listed[k] matches Some(x) && x == e);
        }
    }
}

impl DirNavigator {
    /// The rule by which this navigator lists its directory.
    pub open spec fn rule(&self) -> ListingRule {
        ListingRule {
            directory: self.current_path@,
            show_hidden: self.show_hidden,
            filter: optional_text(self.filter),
            order: self.sort_by,
        }
    }

    /// The listing holds only entries that the navigator's rule keeps:
    /// never the directory itself, no hidden entry unless they are asked
    /// for, and under a filter only names that hold it.
    pub open spec fn lists_kept_only(&self) -> bool {
        forall|i: int| 0 <= i < self.entries.len() ==> self.rule().keeps(#[trigger] self.entries[i])
    }

    /// Whether the listing shows `e`.
    fn shows(&self, e: &FileEntry) -> (kept: bool)
        ensures
            kept == self.rule().keeps(*e),
    {
        if same_text(e.path.as_str(), self.current_path.as_str()) {
            return false;
        }
        if !self.show_hidden && is_hidden_name(e.name.as_str()) {
            return false;
        }
        match &self.filter {
            Some(f) => {
                let name = lowercase(e.name.as_str());
                let wanted = lowercase(f.as_str());
                contains_text(name.as_str(), wanted.as_str())
            },
            None => true,
        }
    }

    /// A navigator for the directory at `path`, whose enumeration gave
    /// `listed`: hidden entries are not shown, nothing is filtered, and the
    /// listing is sorted by name.
    pub fn new(path: String, listed: Vec<Option<FileEntry>>) -> (nav: DirNavigator)
        ensures
            nav.current_path == path,
            !nav.show_hidden,
            nav.sort_by == SortBy::Name,
            nav.filter is None,
            nav.entries@ == nav.rule().listing(listed@),
            nav.lists_kept_only(),
    {
        let mut nav = DirNavigator {
            current_path: path,
            entries: Vec::new(),
            show_hidden: false,
            sort_by: SortBy::Name,
            filter: None,
        };
        nav.refresh(listed);
        nav
    }

    /// Builds the listing anew from what an enumeration of the directory's
    /// children gave. Where the directory could not be read, the caller
    /// hands in nothing and the listing is empty.
    pub fn refresh(&mut self, listed: Vec<Option<FileEntry>>)
        ensures
            final(self).entries@ == old(self).rule().listing(listed@),
            final(self).current_path == old(self).current_path,
            final(self).show_hidden == old(self).show_hidden,
            final(self).sort_by == old(self).sort_by,
            final(self).filter == old(self).filter,
            final(self).lists_kept_only(),
    {
        let ghost given = listed@;
        let mut kept: Vec<FileEntry> = Vec::new();
        assert(given.take(0) == Seq::<Option<FileEntry>>::empty());
        for item in it: listed
            invariant
                it.seq() == given,
                *self == *old(self),
                kept@ == self.rule().shown(given.take(it.index() as int)),
        {
            assert(given.take(it.index() + 1).drop_last() == given.take(it.index() as int));
            match item {
                Some(e) => {
                    if self.shows(&e) {
                        kept.push(e);
                    }
                },
                None => {},
            }
        }
        assert(given.take(given.len() as int) == given);
        sort_entries(&mut kept, self.sort_by);
        self.entries = kept;
        proof {
            self.rule().lemma_listing_holds_kept_only(given);
        }
    }

    /// Sorts the listing by the navigator's key. Entries that the key does
    /// not tell apart stay in the order in which they stood.
    pub fn sort(&mut self)
        ensures
            final(self).entries@ == sorted_entries(old(self).sort_by, old(self).entries@),
            final(self).current_path == old(self).current_path,
            final(self).show_hidden == old(self).show_hidden,
            final(self).sort_by == old(self).sort_by,
            final(self).filter == old(self).filter,
            old(self).lists_kept_only() ==> final(self).lists_kept_only(),
    {
        let order = self.sort_by;
        let ghost given = self.entries@;
        sort_entries(&mut self.entries, order);
        proof {
            broadcast use to_multiset_contains;

            lemma_sorted_is_permutation(order, given);
            if old(self).lists_kept_only() {
                assert forall|i: int| 0 <= i < self.entries.len() implies self.rule().keeps(
                    #[trigger] self.entries[i],
                ) by {
                    let e = self.entries[i];
                    assert(self.entries@.contains(e));
                    assert(self.entries@.to_multiset().count(e) > 0);
                    assert(given.contains(e));
                    let k = choose|k: int| 0 <= k < given.len() && given[k] == e;
                    assert(old(self).rule().keeps(old(self).entries[k]));
                }
            }
        }
    }

    /// Goes to `path` if it is a directory, and lists it from `listed`, the
    /// enumeration of its children. A path that is no directory changes
    /// nothing.
    pub fn navigate_to(&mut self, path: &str, is_dir: bool, listed: Vec<Option<FileEntry>>)
        ensures
            !is_dir ==> *final(self) == *old(self),
            is_dir ==> final(self).current_path@ == path@,
            is_dir ==> final(self).entries@ == final(self).rule().listing(listed@),
            is_dir ==> final(self).lists_kept_only(),
            final(self).show_hidden == old(self).show_hidden,
            final(self).sort_by == old(self).sort_by,
            final(self).filter == old(self).filter,
    {
        if is_dir {
            self.current_path = String::from_str(path);
            self.refresh(listed);
        }
    }

    /// Goes to the parent directory, if the current one has a parent, and
    /// lists it from `listed`. Without a parent nothing changes.
    pub fn navigate_up(&mut self, parent: Option<String>, listed: Vec<Option<FileEntry>>)
        ensures
            parent is None ==> *final(self) == *old(self),
            parent matches Some(p) ==> final(self).current_path == p,
            parent is Some ==> final(self).entries@ == final(self).rule().listing(listed@),
            parent is Some ==> final(self).lists_kept_only(),
            final(self).show_hidden == old(self).show_hidden,
            final(self).sort_by == old(self).sort_by,
            final(self).filter == old(self).filter,
    {
        match parent {
            Some(p) => {
                self.current_path = p;
                self.refresh(listed);
            },
            None => {},
        }
    }

    /// Sets `query` as the filter and lists the directory anew from
    /// `listed`.
    pub fn search(&mut self, query: &str, listed: Vec<Option<FileEntry>>)
        ensures
            final(self).filter matches Some(f) && f@ == query@,
            final(self).entries@ == final(self).rule().listing(listed@),
            final(self).lists_kept_only(),
            final(self).current_path == old(self).current_path,
            final(self).show_hidden == old(self).show_hidden,
            final(self).sort_by == old(self).sort_by,
    {
        self.filter = Some(String::from_str(query));
        self.refresh(listed);
    }
}

} // verus!
