//! The catalog of shaders: which ones there are, which one is selected, and
//! what a change on disk means.
//!
//! The catalog does not read the disk and does not watch it. The host lists
//! the directory and hands the listing over, and it hands over what the
//! watcher saw. The catalog answers with a signal: reload the selected
//! shader, or list the directory again.

use crate::export::string_views;
use vstd::prelude::*;
use vstd::string::StrSliceExecFns;
use vstd::string::StringExecFns;

verus! {

/// How a file was opened.
#[derive(Clone, Copy, Debug, PartialEq, Eq, Structural)]
pub enum AccessMode {
    Any,
    Execute,
    Read,
    Write,
    Other,
}

/// What was done to a file that was not changed by it.
#[derive(Clone, Copy, Debug, PartialEq, Eq, Structural)]
pub enum AccessKind {
    Any,
    Read,
    Open(AccessMode),
    Close(AccessMode),
    Other,
}

/// What the watcher saw happen.
#[derive(Clone, Copy, Debug, PartialEq, Eq, Structural)]
pub enum EventKind {
    Any,
    Access(AccessKind),
    Create,
    Modify,
    Remove,
    Other,
}

/// One notification of the watcher: what happened, and to which files.
#[derive(Clone, Debug, PartialEq, Eq)]
pub struct FsEvent {
    pub kind: EventKind,
    pub paths: Vec<String>,
}

/// What the catalog asks of the host.
#[derive(Clone, Debug, PartialEq, Eq)]
pub enum Signal {
    /// Nothing.
    Nothing,
    /// Reload the shader of this name into the compute stage.
    Reload(String),
    /// List the directory and hand the listing to `scan`.
    Rescan,
}

/// The mathematical value of a [`Signal`].
pub enum SignalView {
    Nothing,
    Reload(Seq<char>),
    Rescan,
}

impl View for Signal {
    type V = SignalView;

    open spec fn view(&self) -> SignalView {
        match *self {
            Signal::Nothing => SignalView::Nothing,
            Signal::Reload(shader) => SignalView::Reload(shader@),
            Signal::Rescan => SignalView::Rescan,
        }
    }
}

/// The shaders that there are, in the order of the last listing, and the one
/// that is selected.
#[derive(Clone, Debug, PartialEq, Eq)]
pub struct ShaderManager {
    pub shaders: Vec<String>,
    pub selected: String,
}

/// The mathematical value of a [`ShaderManager`].
pub struct Catalog {
    pub shaders: Seq<Seq<char>>,
    pub selected: Seq<char>,
}

impl View for ShaderManager {
    type V = Catalog;

    open spec fn view(&self) -> Catalog {
        Catalog { shaders: string_views(self.shaders@), selected: self.selected@ }
    }
}

/// Whether a notification of this kind says that a file was written: it was
/// open for writing and has been closed.
pub open spec fn written(kind: EventKind) -> bool {
    kind == EventKind::Access(AccessKind::Close(AccessMode::Write))
}

/// The place of the first `c` in `s`, or the length of `s` if there is none.
pub open spec fn find(s: Seq<char>, c: char) -> int
    decreases s.len(),
{
    if s.len() == 0 {
        0
    } else if s[0] == c {
        0
    } else {
        1 + find(s.drop_first(), c)
    }
}

/// The name under which a shader is shown: what stands between the first
/// `/` of its path and the first `.` after that. A path without the one or
/// the other has no name.
pub open spec fn name_of(path: Seq<char>) -> Option<Seq<char>> {
    let slash = find(path, '/');
    if slash == path.len() {
        None
    } else {
        let rest = path.subrange(slash + 1, path.len() as int);
        let dot = find(rest, '.');
        if dot == rest.len() {
            None
        } else {
            Some(rest.subrange(0, dot))
        }
    }
}

impl Catalog {
    /// Whether the selected shader is one of those listed.
    pub open spec fn wf(self) -> bool {
        self.shaders.contains(self.selected)
    }

    /// The catalog after a new listing: the selection stays if it is still
    /// listed and falls back to the first entry if it is not.
    pub open spec fn scanned(self, listing: Seq<Seq<char>>) -> Catalog {
        Catalog {
            shaders: listing,
            selected: if listing.contains(self.selected) {
                self.selected
            } else {
                listing[0]
            },
        }
    }

    /// What a change of the file `path` means: the selected shader is
    /// reloaded if it is the one that changed, and any other change may be a
    /// change of the list.
    pub open spec fn on_change(self, path: Seq<char>) -> SignalView {
        if path == self.selected {
            SignalView::Reload(self.selected)
        } else {
            SignalView::Rescan
        }
    }

    /// What a notification means: nothing, unless it says that a file was
    /// written; then it is the change of the first file it names.
    pub open spec fn on_event(self, kind: EventKind, paths: Seq<Seq<char>>) -> SignalView {
        if written(kind) {
            self.on_change(paths[0])
        } else {
            SignalView::Nothing
        }
    }

    /// The catalog after `path` was picked: it is the selection if it is
    /// listed, and nothing changes if it is not.
    pub open spec fn selecting(self, path: Seq<char>) -> Catalog {
        if self.shaders.contains(path) {
            Catalog { selected: path, ..self }
        } else {
            self
        }
    }

    /// The signal of picking `path`: a reload that carries it, if it is
    /// listed.
    pub open spec fn select_signal(self, path: Seq<char>) -> SignalView {
        if self.shaders.contains(path) {
            SignalView::Reload(path)
        } else {
            SignalView::Nothing
        }
    }
}

/// The first place of a character is where it stands with none like it
/// before.
pub proof fn find_is_first(s: Seq<char>, c: char, k: int)
    requires
        0 <= k <= s.len(),
        forall|j: int| 0 <= j < k ==> s[j] != c,
        k < s.len() ==> s[k] == c,
    ensures
        find(s, c) == k,
    decreases s.len(),
{
    if k > 0 {
        let rest = s.drop_first();
        assert forall|j: int| 0 <= j < k - 1 implies rest[j] != c by {
            assert(rest[j] == s[j + 1]);
        }
        find_is_first(rest, c, k - 1);
    }
}

/// Finds the first `c` in `s` at or after `from`, counted in characters.
fn find_from(s: &str, from: usize, c: char) -> (at: usize)
    requires
        from <= s@.len(),
    ensures
        from <= at <= s@.len(),
        at - from == find(s@.subrange(from as int, s@.len() as int), c),
{
    let n = s.unicode_len();
    let mut at = from;
    while at < n && s.get_char(at) != c
        invariant
            from <= at <= n,
            n == s@.len(),
            forall|j: int| from <= j < at ==> s@[j] != c,
        decreases n - at,
    {
        at = at + 1;
    }
    proof {
        find_is_first(s@.subrange(from as int, s@.len() as int), c, at - from);
    }
    at
}

/// The name under which the shader `path` is shown, if it has one.
pub fn shader_name(path: &str) -> (name: Option<String>)
    ensures
        match name {
            Some(text) => name_of(path@) == Some(text@),
            None => name_of(path@) is None,
        },
{
    let n = path.unicode_len();
    let slash = find_from(path, 0, '/');
    assert(path@.subrange(0, path@.len() as int) =~= path@);
    if slash == n {
        return None;
    }
    let dot = find_from(path, slash + 1, '.');
    if dot == n {
        return None;
    }
    let name = path.substring_char(slash + 1, dot);
    assert(name@ =~= path@.subrange(slash + 1, path@.len() as int).subrange(
        0,
        dot - (slash + 1),
    ));
    Some(String::from_str(name))
}

/// Tells whether `path` is one of `shaders`.
fn listed(shaders: &Vec<String>, path: &str) -> (found: bool)
    ensures
        found == string_views(shaders@).contains(path@),
{
    let mut i: usize = 0;
    while i < shaders.len()
        invariant
            i <= shaders.len(),
            forall|j: int| 0 <= j < i ==> string_views(shaders@)[j] != path@,
        decreases shaders.len() - i,
    {
        if shaders[i].as_str().unicode_len() == path.unicode_len() && same_text(
            shaders[i].as_str(),
            path,
        ) {
            assert(string_views(shaders@)[i as int] == path@);
            return true;
        }
        i = i + 1;
    }
    false
}

/// Tells whether two texts of the same length are the same.
fn same_text(a: &str, b: &str) -> (same: bool)
    requires
        a@.len() == b@.len(),
    ensures
        same == (a@ == b@),
{
    let n = a.unicode_len();
    let mut i: usize = 0;
    while i < n
        invariant
            i <= n,
            n == a@.len(),
            n == b@.len(),
            forall|j: int| 0 <= j < i ==> a@[j] == b@[j],
        decreases n - i,
    {
        if a.get_char(i) != b.get_char(i) {
            return false;
        }
        i = i + 1;
    }
    assert(a@ =~= b@);
    true
}

impl FsEvent {
    /// Tells whether the notification says that a file was written.
    pub fn is_written(&self) -> (is_written: bool)
        ensures
            is_written == written(self.kind),
    {
        match self.kind {
            EventKind::Access(AccessKind::Close(AccessMode::Write)) => true,
            _ => false,
        }
    }
}

impl ShaderManager {
    /// A catalog of the shaders in `listing`, with the first one selected.
    pub fn new(listing: Vec<String>) -> (manager: ShaderManager)
        requires
            listing@.len() > 0,
        ensures
            manager@ == (Catalog {
                shaders: string_views(listing@),
                selected: string_views(listing@)[0],
            }),
            manager@.wf(),
    {
        let selected = listing[0].clone();
        ShaderManager { shaders: listing, selected }
    }

    /// Takes one notification of the watcher and says what is to be done
    /// about it.
    pub fn update(&self, event: &FsEvent) -> (signal: Signal)
        requires
            written(event.kind) ==> event.paths@.len() > 0,
        ensures
            signal@ == self@.on_event(event.kind, string_views(event.paths@)),
    {
        match event.kind {
            EventKind::Access(AccessKind::Close(AccessMode::Write)) => {
                self.on_change_notification(event.paths[0].as_str())
            },
            _ => Signal::Nothing,
        }
    }

    /// Says what the change of the file `path` means.
    pub fn on_change_notification(&self, path: &str) -> (signal: Signal)
        ensures
            signal@ == self@.on_change(path@),
    {
        if path.unicode_len() == self.selected.as_str().unicode_len() && same_text(
            path,
            self.selected.as_str(),
        ) {
            Signal::Reload(self.selected.clone())
        } else {
            Signal::Rescan
        }
    }

    /// Replaces the list by a new listing of the directory. The selection
    /// stays if it is still listed; if it is gone, the first entry of the
    /// listing is selected.
    pub fn scan(&mut self, listing: Vec<String>)
        requires
            listing@.len() > 0,
        ensures
            final(self)@ == old(self)@.scanned(string_views(listing@)),
            final(self)@.wf(),
    {
        if !listed(&listing, self.selected.as_str()) {
            self.selected = listing[0].clone();
        }
        self.shaders = listing;
    }

    /// Picks the shader `path`. If it is listed it becomes the selection and
    /// the signal is a reload that carries it.
    pub fn select(&mut self, path: &str) -> (signal: Signal)
        ensures
            final(self)@ == old(self)@.selecting(path@),
            signal@ == old(self)@.select_signal(path@),
    {
        if listed(&self.shaders, path) {
            self.selected = String::from_str(path);
            Signal::Reload(String::from_str(path))
        } else {
            Signal::Nothing
        }
    }

    /// One frame of the panel. `picked` is the place of the shader whose
    /// label was clicked, `reload_clicked` says whether the button that
    /// lists the directory again was clicked. The first result is the signal
    /// of the pick, the second says whether the host is to list the
    /// directory and hand the listing to `scan`.
    pub fn render_ui(&mut self, picked: Option<usize>, reload_clicked: bool) -> (signals: (
        Signal,
        bool,
    ))
        ensures
            match picked {
                Some(i) if i < old(self).shaders@.len() => {
                    &&& final(self)@ == old(self)@.selecting(old(self)@.shaders[i as int])
                    &&& signals.0@ == SignalView::Reload(old(self)@.shaders[i as int])
                },
                _ => final(self)@ == old(self)@ && signals.0@ == SignalView::Nothing,
            },
            signals.1 == reload_clicked,
    {
        let signal = match picked {
            Some(i) => {
                if i < self.shaders.len() {
                    let path = self.shaders[i].clone();
                    assert(string_views(self.shaders@)[i as int] == path@);
                    self.selected = path.clone();
                    Signal::Reload(path)
                } else {
                    Signal::Nothing
                }
            },
            None => Signal::Nothing,
        };
        (signal, reload_clicked)
    }

    /// The shader that is selected.
    pub fn selected(&self) -> (selected: &str)
        ensures
            selected@ == self@.selected,
    {
        self.selected.as_str()
    }
}

/// After any listing the selected shader is one of those listed.
pub proof fn scan_keeps_selection_listed(catalog: Catalog, listing: Seq<Seq<char>>)
    requires
        listing.len() > 0,
    ensures
        catalog.scanned(listing).wf(),
        listing.contains(catalog.selected) ==> catalog.scanned(listing).selected
            == catalog.selected,
        !listing.contains(catalog.selected) ==> catalog.scanned(listing).selected == listing[0],
{
}

/// Picking a shader never leaves the catalog with a selection that is not
/// listed.
pub proof fn select_keeps_selection_listed(catalog: Catalog, path: Seq<char>)
    requires
        catalog.wf(),
    ensures
        catalog.selecting(path).wf(),
        catalog.selecting(path).shaders == catalog.shaders,
{
}

/// Picking the shader `b` while `a` is selected gives one signal, a reload
/// that carries `b`. From then on a change of `a` is no reason to reload: it
/// only has the directory listed again. A change of `b` has `b` reloaded.
pub proof fn selecting_moves_the_reload(catalog: Catalog, a: Seq<char>, b: Seq<char>)
    requires
        catalog.wf(),
        catalog.selected == a,
        catalog.shaders.contains(b),
        a != b,
    ensures
        catalog.select_signal(b) == SignalView::Reload(b),
        catalog.selecting(b).selected == b,
        catalog.selecting(b).wf(),
        catalog.selecting(b).on_change(a) == SignalView::Rescan,
        catalog.selecting(b).on_change(b) == SignalView::Reload(b),
        catalog.on_change(a) == SignalView::Reload(a),
{
}

/// Picking a shader and a change on disk end in the same signal: the host
/// cannot tell a reload of the one kind from a reload of the other.
pub proof fn reloads_look_alike(catalog: Catalog, path: Seq<char>)
    requires
        catalog.shaders.contains(path),
    ensures
        catalog.select_signal(path) == catalog.selecting(path).on_change(path),
{
}

} // verus!
