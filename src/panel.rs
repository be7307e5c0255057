//! The model of a native open/save panel: what has been configured on it, the
//! window it returns focus to, its selection, and how a run's result is read.
use vstd::prelude::*;
use crate::dialog::{decode_path, extensions_of, flatten_extensions, FileDialog, Filter, PathDecodeError};
use crate::window::WindowRef;
use vstd::utf8::*;

verus! {

/// The result code of a modal run that the user confirmed.
pub const RESPONSE_OK: i32 = 1;

#[derive(Debug, Clone, Copy, PartialEq, Eq, Structural)]
pub enum PanelKind {
    Open,
    Save,
}

/// A chosen file, for callers that want a handle rather than a path.
pub struct FileHandle {
    pub path: String,
}

impl FileHandle {
    pub fn wrap(path: String) -> (r: FileHandle)
        ensures
            r.path@ == path@,
    {
        FileHandle { path }
    }
}

/// A panel and every setting issued on it. A setting that was never issued is `None`.
pub struct Panel {
    pub kind: PanelKind,
    /// The window level the panel is raised to.
    pub level: i32,
    /// The window that was key before the panel was shown.
    pub key_window: Option<WindowRef>,
    pub can_choose_directories: Option<bool>,
    pub can_choose_files: Option<bool>,
    pub allows_multiple_selection: Option<bool>,
    pub allowed_file_types: Option<Vec<String>>,
    pub directory: Option<String>,
    /// The paths the panel resolved, in the order the OS reported them.
    pub selection: Vec<String>,
}

/// The text of each string of a sequence.
pub open spec fn texts(v: Seq<String>) -> Seq<Seq<char>> {
    v.map_values(|s: String| s@)
}

/// The single path of a selection: its first, or the empty path when there is none.
pub open spec fn single_path(selection: Seq<String>) -> Seq<char> {
    if selection.len() > 0 {
        selection[0]@
    } else {
        Seq::empty()
    }
}

/// What the single-path extraction yields for a run's result code.
pub open spec fn single_output(selection: Seq<String>, res_id: i32) -> Option<Seq<char>> {
    if res_id == RESPONSE_OK {
        Some(single_path(selection))
    } else {
        None
    }
}

/// What the path-list extraction yields for a run's result code.
pub open spec fn list_output(selection: Seq<String>, res_id: i32) -> Option<Seq<Seq<char>>> {
    if res_id == RESPONSE_OK {
        Some(texts(selection))
    } else {
        None
    }
}

/// The settings of a panel other than its selection are those of a fresh panel.
pub open spec fn unconfigured(p: Panel) -> bool {
    &&& p.can_choose_directories.is_none()
    &&& p.can_choose_files.is_none()
    &&& p.allows_multiple_selection.is_none()
    &&& p.allowed_file_types.is_none()
    &&& p.directory.is_none()
    &&& p.selection@.len() == 0
}

/// The directory a panel starts in after `set_path(path)` on a panel that had `before`.
pub open spec fn directory_after(before: Option<String>, path: Seq<u8>) -> Option<Seq<char>> {
    if valid_utf8(path) {
        Some(decode_utf8(path))
    } else {
        match before {
            Some(d) => Some(d@),
            None => None,
        }
    }
}

pub open spec fn opt_text(d: Option<String>) -> Option<Seq<char>> {
    match d {
        Some(s) => Some(s@),
        None => None,
    }
}

/// The directory after a builder applied the options' starting directory.
pub open spec fn directory_from(opt: FileDialog) -> Option<Seq<char>> {
    match opt.starting_directory {
        Some(p) => if valid_utf8(p@) {
            Some(decode_utf8(p@))
        } else {
            None
        },
        None => None,
    }
}

/// The allowed types after a builder applied the options' filters: none are
/// installed for an empty filter list.
pub open spec fn types_from(opt: FileDialog) -> Option<Seq<Seq<char>>> {
    if opt.filters@.len() == 0 {
        None
    } else {
        Some(flatten_extensions(opt.filters@))
    }
}

pub open spec fn opt_texts(t: Option<Vec<String>>) -> Option<Seq<Seq<char>>> {
    match t {
        Some(v) => Some(texts(v@)),
        None => None,
    }
}

impl Panel {
    /// A panel of `kind`, raised to `level`, remembering `key_window` to refocus later.
    pub fn new(kind: PanelKind, key_window: Option<WindowRef>, level: i32) -> (r: Panel)
        ensures
            r.kind == kind,
            r.key_window == key_window,
            r.level == level,
            unconfigured(r),
    {
        Panel {
            kind,
            level,
            key_window,
            can_choose_directories: None,
            can_choose_files: None,
            allows_multiple_selection: None,
            allowed_file_types: None,
            directory: None,
            selection: Vec::new(),
        }
    }

    pub fn open_panel(key_window: Option<WindowRef>, level: i32) -> (r: Panel)
        ensures
            r.kind == PanelKind::Open,
            r.key_window == key_window,
            r.level == level,
            unconfigured(r),
    {
        Self::new(PanelKind::Open, key_window, level)
    }

    pub fn save_panel(key_window: Option<WindowRef>, level: i32) -> (r: Panel)
        ensures
            r.kind == PanelKind::Save,
            r.key_window == key_window,
            r.level == level,
            unconfigured(r),
    {
        Self::new(PanelKind::Save, key_window, level)
    }
    pub fn set_can_choose_directories(&mut self, v: bool)
        ensures
            final(self).can_choose_directories == Some(v),
            final(self).can_choose_files == old(self).can_choose_files,
            final(self).allows_multiple_selection == old(self).allows_multiple_selection,
            final(self).allowed_file_types == old(self).allowed_file_types,
            final(self).directory == old(self).directory,
            final(self).selection == old(self).selection,
            final(self).kind == old(self).kind,
            final(self).key_window == old(self).key_window,
            final(self).level == old(self).level,
    {
        self.can_choose_directories = Some(v);
    }

    pub fn set_can_choose_files(&mut self, v: bool)
        ensures
            final(self).can_choose_files == Some(v),
            final(self).can_choose_directories == old(self).can_choose_directories,
            final(self).allows_multiple_selection == old(self).allows_multiple_selection,
            final(self).allowed_file_types == old(self).allowed_file_types,
            final(self).directory == old(self).directory,
            final(self).selection == old(self).selection,
            final(self).kind == old(self).kind,
            final(self).key_window == old(self).key_window,
            final(self).level == old(self).level,
    {
        self.can_choose_files = Some(v);
    }

    pub fn set_allows_multiple_selection(&mut self, v: bool)
        ensures
            final(self).allows_multiple_selection == Some(v),
            final(self).can_choose_directories == old(self).can_choose_directories,
            final(self).can_choose_files == old(self).can_choose_files,
            final(self).allowed_file_types == old(self).allowed_file_types,
            final(self).directory == old(self).directory,
            final(self).selection == old(self).selection,
            final(self).kind == old(self).kind,
            final(self).key_window == old(self).key_window,
            final(self).level == old(self).level,
    {
        self.allows_multiple_selection = Some(v);
    }

    /// Installs as the allowed types every extension of every filter, in order.
    pub fn add_filters(&mut self, params: &FileDialog)
        ensures
            opt_texts(final(self).allowed_file_types) == Some(flatten_extensions(params.filters@)),
            final(self).can_choose_directories == old(self).can_choose_directories,
            final(self).can_choose_files == old(self).can_choose_files,
            final(self).allows_multiple_selection == old(self).allows_multiple_selection,
            final(self).directory == old(self).directory,
            final(self).selection == old(self).selection,
            final(self).kind == old(self).kind,
            final(self).key_window == old(self).key_window,
            final(self).level == old(self).level,
    {
        let filters = &params.filters;
        let mut exts: Vec<String> = Vec::new();
        let mut i: usize = 0;
        while i < filters.len()
            invariant
                i <= filters@.len(),
                texts(exts@) == flatten_extensions(filters@.take(i as int)),
            decreases filters@.len() - i,
        {
            let filter = &filters[i];
            let mut j: usize = 0;
            while j < filter.extensions.len()
                invariant
                    i < filters@.len(),
                    *filter == filters@[i as int],
                    j <= filter.extensions@.len(),
                    texts(exts@) == flatten_extensions(filters@.take(i as int))
                        + extensions_of(*filter).take(j as int),
                decreases filter.extensions@.len() - j,
            {
                let ext = filter.extensions[j].clone();
                proof {
                    assert(texts(exts@.push(ext)) =~= texts(exts@).push(ext@));
                    assert(extensions_of(*filter).take(j + 1) =~= extensions_of(*filter).take(
                        j as int,
                    ).push(ext@));
                }
                exts.push(ext);
                j = j + 1;
            }
            proof {
                lemma_flatten_step(filters@, i as int);
                assert(extensions_of(*filter).take(j as int) =~= extensions_of(*filter));
            }
            i = i + 1;
        }
        proof {
            assert(filters@.take(i as int) =~= filters@);
        }
        self.allowed_file_types = Some(exts);
    }

    /// Sets the starting directory; a path that is not UTF-8 is ignored.
    pub fn set_path(&mut self, path: &[u8])
        ensures
            opt_text(final(self).directory) == directory_after(old(self).directory, path@),
            final(self).can_choose_directories == old(self).can_choose_directories,
            final(self).can_choose_files == old(self).can_choose_files,
            final(self).allows_multiple_selection == old(self).allows_multiple_selection,
            final(self).allowed_file_types == old(self).allowed_file_types,
            final(self).selection == old(self).selection,
            final(self).kind == old(self).kind,
            final(self).key_window == old(self).key_window,
            final(self).level == old(self).level,
    {
        if let Ok(dir) = decode_path(path) {
            self.directory = Some(dir);
        }
    }

    /// Records the paths the panel resolved, in the order the OS reported them.
    pub fn set_selection(&mut self, paths: Vec<String>)
        ensures
            final(self).selection@ == paths@,
            final(self).can_choose_directories == old(self).can_choose_directories,
            final(self).can_choose_files == old(self).can_choose_files,
            final(self).allows_multiple_selection == old(self).allows_multiple_selection,
            final(self).allowed_file_types == old(self).allowed_file_types,
            final(self).directory == old(self).directory,
            final(self).kind == old(self).kind,
            final(self).key_window == old(self).key_window,
            final(self).level == old(self).level,
    {
        self.selection = paths;
    }

    /// Decodes the raw path bytes the OS reported and records them as the
    /// selection; if any of them is not UTF-8 the panel is left unchanged.
    pub fn record_selection(&mut self, raw: &Vec<Vec<u8>>) -> (r: Result<(), PathDecodeError>)
        ensures
            (forall|k: int| 0 <= k < raw@.len() ==> valid_utf8(#[trigger] raw@[k]@)) ==> {
                &&& r is Ok
                &&& texts(final(self).selection@) == raw@.map_values(|b: Vec<u8>| decode_utf8(b@))
            },
            !(forall|k: int| 0 <= k < raw@.len() ==> valid_utf8(#[trigger] raw@[k]@)) ==> {
                &&& r == Err::<(), PathDecodeError>(PathDecodeError::InvalidUtf8)
                &&& final(self).selection == old(self).selection
            },
            final(self).can_choose_directories == old(self).can_choose_directories,
            final(self).can_choose_files == old(self).can_choose_files,
            final(self).allows_multiple_selection == old(self).allows_multiple_selection,
            final(self).allowed_file_types == old(self).allowed_file_types,
            final(self).directory == old(self).directory,
            final(self).kind == old(self).kind,
            final(self).key_window == old(self).key_window,
            final(self).level == old(self).level,
    {
        let mut paths: Vec<String> = Vec::new();
        let mut i: usize = 0;
        while i < raw.len()
            invariant
                i <= raw@.len(),
                forall|k: int| 0 <= k < i ==> valid_utf8(#[trigger] raw@[k]@),
                texts(paths@) == raw@.take(i as int).map_values(|b: Vec<u8>| decode_utf8(b@)),
            decreases raw@.len() - i,
        {
            match decode_path(raw[i].as_slice()) {
                Ok(s) => {
                    proof {
                        assert(texts(paths@.push(s)) =~= texts(paths@).push(s@));
                        assert(raw@.take(i + 1).map_values(|b: Vec<u8>| decode_utf8(b@))
                            =~= raw@.take(i as int).map_values(|b: Vec<u8>| decode_utf8(b@)).push(
                            decode_utf8(raw@[i as int]@),
                        ));
                    }
                    paths.push(s);
                },
                Err(e) => {
                    return Err(e);
                },
            }
            i = i + 1;
        }
        proof {
            assert(raw@.take(i as int) =~= raw@);
        }
        self.selection = paths;
        Ok(())
    }

    /// The single chosen path: the first of the selection, or empty when there is none.
    pub fn get_result(&self) -> (r: String)
        ensures
            r@ == single_path(self.selection@),
    {
        if self.selection.len() > 0 {
            self.selection[0].clone()
        } else {
            String::new()
        }
    }

    /// Every chosen path, in the order the OS reported them.
    pub fn get_results(&self) -> (r: Vec<String>)
        ensures
            texts(r@) == texts(self.selection@),
    {
        let mut res: Vec<String> = Vec::new();
        let mut i: usize = 0;
        while i < self.selection.len()
            invariant
                i <= self.selection@.len(),
                texts(res@) == texts(self.selection@.take(i as int)),
            decreases self.selection@.len() - i,
        {
            let p = self.selection[i].clone();
            proof {
                assert(texts(res@.push(p)) =~= texts(res@).push(p@));
                assert(self.selection@.take(i + 1) =~= self.selection@.take(i as int).push(p));
                assert(texts(self.selection@.take(i + 1)) =~= texts(self.selection@.take(i as int)).push(p@));
            }
            res.push(p);
            i = i + 1;
        }
        proof {
            assert(self.selection@.take(i as int) =~= self.selection@);
        }
        res
    }

    /// The window to bring back to front when the panel goes away.
    pub fn restore_target(&self) -> (r: Option<WindowRef>)
        ensures
            r == self.key_window,
    {
        self.key_window
    }
}

proof fn lemma_flatten_step(s: Seq<Filter>, i: int)
    requires
        0 <= i < s.len(),
    ensures
        flatten_extensions(s.take(i + 1)) == flatten_extensions(s.take(i)) + extensions_of(s[i]),
{
    assert(s.take(i + 1).drop_last() =~= s.take(i));
}

/// The paths held by a list of file handles.
pub open spec fn handle_texts(v: Seq<FileHandle>) -> Seq<Seq<char>> {
    v.map_values(|h: FileHandle| h.path@)
}

/// The shape a builder leaves a panel in, besides the flags it sets.
pub open spec fn built_from(p: Panel, kind: PanelKind, opt: FileDialog, key_window: Option<WindowRef>, level: i32, filtered: bool) -> bool {
    &&& p.kind == kind
    &&& p.key_window == key_window
    &&& p.level == level
    &&& opt_text(p.directory) == directory_from(opt)
    &&& opt_texts(p.allowed_file_types) == (if filtered { types_from(opt) } else { None })
    &&& p.selection@.len() == 0
}

impl Panel {
    /// An open panel for one file, with the options' filters and starting directory.
    pub fn build_pick_file(opt: &FileDialog, key_window: Option<WindowRef>, level: i32) -> (r: Panel)
        ensures
            built_from(r, PanelKind::Open, *opt, key_window, level, true),
            r.can_choose_directories == Some(false),
            r.can_choose_files == Some(true),
            r.allows_multiple_selection.is_none(),
    {
        let mut panel = Panel::open_panel(key_window, level);
        if opt.filters.len() > 0 {
            panel.add_filters(opt);
        }
        if let Some(path) = &opt.starting_directory {
            panel.set_path(path.as_slice());
        }
        panel.set_can_choose_directories(false);
        panel.set_can_choose_files(true);
        panel
    }

    /// A save panel with the options' starting directory; filters do not apply.
    pub fn build_save_file(opt: &FileDialog, key_window: Option<WindowRef>, level: i32) -> (r: Panel)
        ensures
            built_from(r, PanelKind::Save, *opt, key_window, level, false),
            r.can_choose_directories.is_none(),
            r.can_choose_files.is_none(),
            r.allows_multiple_selection.is_none(),
    {
        let mut panel = Panel::save_panel(key_window, level);
        if let Some(path) = &opt.starting_directory {
            panel.set_path(path.as_slice());
        }
        panel
    }

    /// An open panel for one directory, with the options' starting directory.
    pub fn build_pick_folder(opt: &FileDialog, key_window: Option<WindowRef>, level: i32) -> (r: Panel)
        ensures
            built_from(r, PanelKind::Open, *opt, key_window, level, false),
            r.can_choose_directories == Some(true),
            r.can_choose_files == Some(false),
            r.allows_multiple_selection.is_none(),
    {
        let mut panel = Panel::open_panel(key_window, level);
        if let Some(path) = &opt.starting_directory {
            panel.set_path(path.as_slice());
        }
        panel.set_can_choose_directories(true);
        panel.set_can_choose_files(false);
        panel
    }

    /// An open panel for several files, with the options' filters and starting directory.
    pub fn build_pick_files(opt: &FileDialog, key_window: Option<WindowRef>, level: i32) -> (r: Panel)
        ensures
            built_from(r, PanelKind::Open, *opt, key_window, level, true),
            r.can_choose_directories == Some(false),
            r.can_choose_files == Some(true),
            r.allows_multiple_selection == Some(true),
    {
        let mut panel = Panel::open_panel(key_window, level);
        if opt.filters.len() > 0 {
            panel.add_filters(opt);
        }
        if let Some(path) = &opt.starting_directory {
            panel.set_path(path.as_slice());
        }
        panel.set_can_choose_directories(false);
        panel.set_can_choose_files(true);
        panel.set_allows_multiple_selection(true);
        panel
    }
}

/// Extraction of a run's outcome from a source, by the run's result code.
pub trait OutputFrom<F>: Sized {
    /// What `from` yields from `from` for result code `res_id`.
    spec fn output_spec(from: &F, res_id: i32, r: Self) -> bool;

    fn from(from: &F, res_id: i32) -> (r: Self)
        ensures
            Self::output_spec(from, res_id, r),
    ;
}

impl OutputFrom<Panel> for Option<String> {
    open spec fn output_spec(panel: &Panel, res_id: i32, r: Self) -> bool {
        opt_text(r) == single_output(panel.selection@, res_id)
    }

    fn from(panel: &Panel, res_id: i32) -> (r: Self) {
        if res_id == RESPONSE_OK {
            Some(panel.get_result())
        } else {
            None
        }
    }
}

impl OutputFrom<Panel> for Option<Vec<String>> {
    open spec fn output_spec(panel: &Panel, res_id: i32, r: Self) -> bool {
        opt_texts(r) == list_output(panel.selection@, res_id)
    }

    fn from(panel: &Panel, res_id: i32) -> (r: Self) {
        if res_id == RESPONSE_OK {
            Some(panel.get_results())
        } else {
            None
        }
    }
}

impl OutputFrom<Panel> for Option<FileHandle> {
    open spec fn output_spec(panel: &Panel, res_id: i32, r: Self) -> bool {
        (match r {
            Some(h) => Some(h.path@),
            None => None,
        }) == single_output(panel.selection@, res_id)
    }

    fn from(panel: &Panel, res_id: i32) -> (r: Self) {
        if res_id == RESPONSE_OK {
            Some(FileHandle::wrap(panel.get_result()))
        } else {
            None
        }
    }
}

impl OutputFrom<Panel> for Option<Vec<FileHandle>> {
    open spec fn output_spec(panel: &Panel, res_id: i32, r: Self) -> bool {
        (match r {
            Some(v) => Some(handle_texts(v@)),
            None => None,
        }) == list_output(panel.selection@, res_id)
    }

    fn from(panel: &Panel, res_id: i32) -> (r: Self) {
        if res_id == RESPONSE_OK {
            let paths = panel.get_results();
            let mut files: Vec<FileHandle> = Vec::new();
            let mut i: usize = 0;
            while i < paths.len()
                invariant
                    i <= paths@.len(),
                    texts(paths@) == texts(panel.selection@),
                    handle_texts(files@) == texts(paths@.take(i as int)),
                decreases paths@.len() - i,
            {
                let h = FileHandle::wrap(paths[i].clone());
                proof {
                    assert(handle_texts(files@.push(h)) =~= handle_texts(files@).push(h.path@));
                    assert(texts(paths@.take(i + 1)) =~= texts(paths@.take(i as int)).push(
                        paths@[i as int]@,
                    ));
                }
                files.push(h);
                i = i + 1;
            }
            proof {
                assert(paths@.take(i as int) =~= paths@);
            }
            Some(files)
        } else {
            None
        }
    }
}


/// A builder given options without filters installs no allowed types at all.
pub proof fn lemma_no_filters_no_types(
    p: Panel,
    kind: PanelKind,
    opt: FileDialog,
    key_window: Option<WindowRef>,
    level: i32,
    filtered: bool,
)
    requires
        opt.filters@.len() == 0,
        built_from(p, kind, opt, key_window, level, filtered),
    ensures
        p.allowed_file_types.is_none(),
{
}

/// For any result code but the confirming one, every extraction yields nothing,
/// whatever the panel's selection holds.
pub proof fn lemma_cancel_yields_none(
    panel: Panel,
    res_id: i32,
    single: Option<String>,
    list: Option<Vec<String>>,
    handle: Option<FileHandle>,
    handles: Option<Vec<FileHandle>>,
)
    requires
        res_id != RESPONSE_OK,
        <Option<String> as OutputFrom<Panel>>::output_spec(&panel, res_id, single),
        <Option<Vec<String>> as OutputFrom<Panel>>::output_spec(&panel, res_id, list),
        <Option<FileHandle> as OutputFrom<Panel>>::output_spec(&panel, res_id, handle),
        <Option<Vec<FileHandle>> as OutputFrom<Panel>>::output_spec(&panel, res_id, handles),
    ensures
        single.is_none(),
        list.is_none(),
        handle.is_none(),
        handles.is_none(),
{
}

/// A confirmed single extraction yields exactly the path the panel resolved.
pub proof fn lemma_confirmed_single_path(panel: Panel, single: Option<String>, handle: Option<FileHandle>)
    requires
        panel.selection@.len() > 0,
        <Option<String> as OutputFrom<Panel>>::output_spec(&panel, RESPONSE_OK, single),
        <Option<FileHandle> as OutputFrom<Panel>>::output_spec(&panel, RESPONSE_OK, handle),
    ensures
        single.is_some() && single.unwrap()@ == panel.selection@[0]@,
        handle.is_some() && handle.unwrap().path@ == panel.selection@[0]@,
{
}

/// A confirmed list extraction yields the resolved paths, as many and in the same order.
pub proof fn lemma_confirmed_paths_in_order(panel: Panel, list: Option<Vec<String>>, handles: Option<Vec<FileHandle>>)
    requires
        <Option<Vec<String>> as OutputFrom<Panel>>::output_spec(&panel, RESPONSE_OK, list),
        <Option<Vec<FileHandle>> as OutputFrom<Panel>>::output_spec(&panel, RESPONSE_OK, handles),
    ensures
        list.is_some(),
        list.unwrap()@.len() == panel.selection@.len(),
        forall|i: int| 0 <= i < panel.selection@.len() ==> #[trigger] list.unwrap()@[i]@ == panel.selection@[i]@,
        handles.is_some(),
        handles.unwrap()@.len() == panel.selection@.len(),
        forall|i: int| 0 <= i < panel.selection@.len() ==> #[trigger] handles.unwrap()@[i].path@ == panel.selection@[i]@,
{
    let l = list.unwrap()@;
    let h = handles.unwrap()@;
    assert(texts(l).len() == l.len());
    assert(handle_texts(h).len() == h.len());
    assert forall|i: int| 0 <= i < panel.selection@.len() implies #[trigger] l[i]@ == panel.selection@[i]@ by {
        assert(texts(l)[i] == texts(panel.selection@)[i]);
    }
    assert forall|i: int| 0 <= i < panel.selection@.len() implies #[trigger] h[i].path@ == panel.selection@[i]@ by {
        assert(handle_texts(h)[i] == texts(panel.selection@)[i]);
    }
}

} // verus!
