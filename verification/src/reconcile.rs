//! Rebuilding the two lists of a configuration from the backup tree.

use vstd::prelude::*;
use crate::config::{Config, ConfigView};
use crate::session::{Reply, ReplyView, Request, RequestView};
use crate::text::texts;
use crate::tree::{entry_views, is_reserved, reserved, Entry, EntryKind, EntryView};

verus! {

/// The entry is a directory that holds content of the backup.
pub open spec fn content_dir(entry: EntryView) -> bool {
    entry.kind == EntryKind::Directory && !reserved(entry)
}

/// The entry is a regular file.
pub open spec fn content_file(entry: EntryView) -> bool {
    entry.kind == EntryKind::File
}

/// The names of the directories in `listing`, without git's own, in the
/// listing's order.
pub open spec fn listed_dirs(listing: Seq<EntryView>) -> Seq<Seq<char>> {
    listing.filter(|e: EntryView| content_dir(e)).map_values(|e: EntryView| e.name)
}

/// The names of the regular files in `listing`, in the listing's order.
pub open spec fn listed_files(listing: Seq<EntryView>) -> Seq<Seq<char>> {
    listing.filter(|e: EntryView| content_file(e)).map_values(|e: EntryView| e.name)
}

/// `conf` with its two lists replaced by what `listing` holds.
pub open spec fn synced(conf: ConfigView, listing: Seq<EntryView>) -> ConfigView {
    ConfigView { dirs_local: listed_dirs(listing), files_local: listed_files(listing), ..conf }
}

/// Where a reconciliation stands.
#[derive(Debug, Clone, Copy, PartialEq, Eq, Structural)]
pub enum Scan {
    /// Waiting for the listing of the backup root.
    Listing,
    /// Ended: the two lists are rebuilt.
    Done,
    /// Ended: the listing was refused, and the two lists are as they were.
    Failed,
}

/// A reconciliation under way.
#[derive(Debug, Clone, PartialEq, Eq)]
pub struct Reconcile {
    /// Where it stands.
    pub scan: Scan,
    /// The configuration: as it was given, until the listing has come.
    pub conf: Config,
}

/// A `Reconcile` as plain values.
pub struct ReconcileView {
    pub scan: Scan,
    pub conf: ConfigView,
}

impl View for Reconcile {
    type V = ReconcileView;

    open spec fn view(&self) -> ReconcileView {
        ReconcileView { scan: self.scan, conf: self.conf@ }
    }
}

impl ReconcileView {
    /// What the reconciliation asks for where it stands.
    pub open spec fn request(self) -> RequestView {
        match self.scan {
            Scan::Listing => RequestView::List(self.conf.dir_backup),
            Scan::Done => RequestView::Done,
            Scan::Failed => RequestView::Failed,
        }
    }

    /// The reconciliation after `reply`: a listing replaces the two lists,
    /// a listing that was refused leaves them and ends the reconciliation
    /// in failure, and any other reply changes nothing.
    pub open spec fn after(self, reply: ReplyView) -> ReconcileView {
        match (self.scan, reply) {
            (Scan::Listing, ReplyView::Listed(listing)) => ReconcileView {
                scan: Scan::Done,
                conf: synced(self.conf, listing),
            },
            (Scan::Listing, ReplyView::Refused(_)) => ReconcileView { scan: Scan::Failed, ..self },
            _ => self,
        }
    }
}

/// A reconciliation of `conf` at its start.
pub open spec fn sync_start(conf: ConfigView) -> ReconcileView {
    ReconcileView { scan: Scan::Listing, conf }
}

/// Sorts the names in `listing` into directories, without git's own, and
/// regular files.
fn sort_entries(listing: &Vec<Entry>) -> (lists: (Vec<String>, Vec<String>))
    ensures
        texts(lists.0@) == listed_dirs(entry_views(listing@)),
        texts(lists.1@) == listed_files(entry_views(listing@)),
{
    let mut dirs: Vec<String> = Vec::new();
    let mut files: Vec<String> = Vec::new();
    let mut i: usize = 0;
    while i < listing.len()
        invariant
            i <= listing.len(),
            texts(dirs@) == listed_dirs(entry_views(listing@).take(i as int)),
            texts(files@) == listed_files(entry_views(listing@).take(i as int)),
        decreases listing.len() - i,
    {
        let entry = &listing[i];
        proof {
            let seen = entry_views(listing@).take(i as int);
            let name = |e: EntryView| e.name;
            assert(entry_views(listing@).take(i + 1) =~= seen.push(entry@));
            seen.lemma_filter_push(entry@, |e: EntryView| content_dir(e));
            seen.lemma_filter_push(entry@, |e: EntryView| content_file(e));
            seen.filter(|e: EntryView| content_dir(e)).lemma_push_map_commute(name, entry@);
            seen.filter(|e: EntryView| content_file(e)).lemma_push_map_commute(name, entry@);
        }
        match entry.kind {
            EntryKind::Directory => {
                if !is_reserved(entry) {
                    let name = entry.name.clone();
                    assert(texts(dirs@.push(name)) =~= texts(dirs@).push(name@));
                    dirs.push(name);
                }
            },
            EntryKind::File => {
                let name = entry.name.clone();
                assert(texts(files@.push(name)) =~= texts(files@).push(name@));
                files.push(name);
            },
            EntryKind::Other => {},
        }
        i += 1;
    }
    assert(entry_views(listing@).take(listing.len() as int) =~= entry_views(listing@));
    (dirs, files)
}

impl Reconcile {
    /// What the reconciliation asks for now.
    pub fn request(&self) -> (request: Request)
        ensures
            request@ == self@.request(),
    {
        match self.scan {
            Scan::Listing => Request::List(self.conf.dir_backup.clone()),
            Scan::Done => Request::Done,
            Scan::Failed => Request::Failed,
        }
    }

    /// Takes the answer to the last request. There is never a line to show
    /// the operator.
    pub fn advance(&mut self, reply: &Reply) -> (lines: Vec<String>)
        ensures
            final(self)@ == old(self)@.after(reply@),
            lines@.len() == 0,
    {
        match self.scan {
            Scan::Listing => {
                match reply {
                    Reply::Listed(listing) => {
                        let (dirs, files) = sort_entries(listing);
                        self.conf.dirs_local = dirs;
                        self.conf.files_local = files;
                        self.scan = Scan::Done;
                    },
                    Reply::Refused(_) => {
                        self.scan = Scan::Failed;
                    },
                    _ => {},
                }
            },
            _ => {},
        }
        Vec::new()
    }
}

/// Starts the reconciliation of `conf` with the backup tree: its two lists
/// are replaced by what lies directly below the backup root, the
/// directories, without git's own, and the regular files, each by its name
/// relative to the backup root. Nothing below the first level is looked
/// at, and what `conf` listed before is forgotten.
pub fn sync_config(conf: Config) -> (start: Reconcile)
    requires
        conf@.ready(),
    ensures
        start@ == sync_start(conf@),
{
    Reconcile { scan: Scan::Listing, conf }
}

} // verus!
