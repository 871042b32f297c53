//! What the interface sees of the open project and of those it remembers.
use crate::command::TrackedProject;
use crate::ids::{BlockModelId, DrillHoleId, LayerId, PointCloudId, RasterTextureId, TriangulationId};
use crate::number::{Rgba, Vec3};
use vstd::prelude::*;

verus! {

/// Where the application runs.
#[derive(Clone, Copy, Debug, PartialEq, Eq, Structural)]
pub enum Platform {
    Desktop,
    /// In a page, with projects kept in the browser's storage.
    Browser,
}

/// One project layer shown in the explorer tree.
#[derive(Clone, Debug)]
pub struct UiLayerEntry {
    pub id: LayerId,
    pub name: String,
    /// Whether the layer is loaded and drawn in the viewport.
    pub is_loaded: bool,
    pub dirty: bool,
}

/// The one open project shown in the explorer tree.
#[derive(Clone, Debug)]
pub struct UiProjectEntry {
    pub runtime_id: u32,
    pub name: String,
    pub dirty: bool,
    pub designs_dirty: bool,
    pub lossy_save_warnings: Vec<String>,
    pub is_active: bool,
    /// Persisted in browser storage despite having no host filesystem path.
    pub stored_in_browser: bool,
    pub layers: Vec<UiLayerEntry>,
    /// `None` only for a never-saved active project.
    pub path: Option<String>,
}

impl UiProjectEntry {
    /// There are unsaved edits, or nowhere to have written them yet.
    pub open spec fn is_unsaved(self, platform: Platform) -> bool {
        ||| self.dirty
        ||| match platform {
            Platform::Desktop => self.path is None,
            Platform::Browser => !self.stored_in_browser,
        }
    }

    /// Whether Save would write anything for this project.
    ///
    /// A project opened from a file is backed by one that stays put either way,
    /// but the project the application starts on has no path, and in the browser
    /// an unedited project is still unsaved work until storage holds a copy. Save
    /// stays available in both of those so the first one can ask where to go.
    pub fn needs_save(&self, platform: Platform) -> (r: bool)
        ensures
            r == self.is_unsaved(platform),
    {
        match platform {
            Platform::Desktop => self.dirty || self.path.is_none(),
            Platform::Browser => self.dirty || !self.stored_in_browser,
        }
    }
}

/// A remembered project, listed under Recent on the welcome splash. Only the
/// active entry has a decoded [`UiProjectEntry`].
#[derive(Clone, Debug)]
pub struct UiTrackedProjectEntry {
    pub name: String,
    pub is_active: bool,
    pub dirty: bool,
    pub source: TrackedProject,
    pub stored_in_browser: bool,
}

/// One project-owned point cloud shown in the explorer tree.
#[derive(Clone, Debug)]
pub struct UiPointCloudEntry {
    pub id: PointCloudId,
    pub name: String,
    pub source_name: Option<String>,
    pub is_loaded: bool,
    pub dirty: bool,
    pub point_count: usize,
}

/// One raster texture shown in the explorer tree.
#[derive(Clone, Debug)]
pub struct UiRasterTextureEntry {
    pub id: RasterTextureId,
    pub name: String,
    pub source_name: Option<String>,
    pub is_loaded: bool,
    pub dirty: bool,
    /// Currently draped over at least one triangulation.
    pub is_draped: bool,
    pub source_width: u32,
    pub source_height: u32,
    pub driver_name: String,
    pub projection: String,
}

/// One triangulation shown in the explorer tree.
#[derive(Clone, Debug)]
pub struct UiTriangulationEntry {
    pub id: TriangulationId,
    pub name: String,
    pub source_name: Option<String>,
    pub is_active: bool,
    pub is_loaded: bool,
    pub dirty: bool,
    /// Face colour edited in the context menu.
    pub color: Rgba,
}

/// One block model shown in the explorer tree.
#[derive(Clone, Debug)]
pub struct UiBlockModelEntry {
    pub id: BlockModelId,
    pub name: String,
    pub source_name: Option<String>,
    pub is_loaded: bool,
    pub dirty: bool,
    pub block_count: usize,
    pub variable_count: usize,
    pub lower: Vec3,
    pub upper: Vec3,
}

/// One drill hole dataset shown in the explorer tree.
#[derive(Clone, Debug)]
pub struct UiDrillHoleEntry {
    pub id: DrillHoleId,
    pub name: String,
    pub source_name: Option<String>,
    pub is_loaded: bool,
    pub dirty: bool,
    pub hole_count: usize,
    pub field_count: usize,
}

/// Which groups of the tree gained or lost members since the last save.
#[derive(Clone, Copy, Debug, PartialEq, Eq, Structural)]
pub struct MembershipChanges {
    pub triangulations: bool,
    pub block_models: bool,
    pub drill_holes: bool,
    pub point_clouds: bool,
    pub rasters: bool,
}

/// Flattened snapshot of the project tree, built each frame by the application.
#[derive(Clone, Debug)]
pub struct UiProjectView {
    pub tracked_projects: Vec<UiTrackedProjectEntry>,
    pub projects: Vec<UiProjectEntry>,
    pub triangulations: Vec<UiTriangulationEntry>,
    pub block_models: Vec<UiBlockModelEntry>,
    pub drill_holes: Vec<UiDrillHoleEntry>,
    pub point_clouds: Vec<UiPointCloudEntry>,
    pub raster_textures: Vec<UiRasterTextureEntry>,
    pub membership: MembershipChanges,
    pub has_active_project: bool,
    pub needs_startup_dialog: bool,
    /// Full filesystem path of the currently active project, if any.
    pub active_path: Option<String>,
    /// Active triangulation and its face colour, used by the context menu.
    pub active_triangulation_for_menu: Option<(TriangulationId, Rgba)>,
}

/// How many remembered projects a Recent list offers before the file chooser is
/// the better tool for finding one.
pub const RECENT_PROJECT_LIMIT: usize = 10;

/// The entries that are not open, in order.
pub open spec fn not_open(known: Seq<UiTrackedProjectEntry>) -> Seq<UiTrackedProjectEntry>
    decreases known.len(),
{
    if known.len() == 0 {
        Seq::empty()
    } else if known.last().is_active {
        not_open(known.drop_last())
    } else {
        not_open(known.drop_last()).push(known.last())
    }
}

/// The first entries of a list, as many as a Recent list offers.
pub open spec fn offered(known: Seq<UiTrackedProjectEntry>) -> Seq<UiTrackedProjectEntry> {
    if not_open(known).len() <= RECENT_PROJECT_LIMIT {
        not_open(known)
    } else {
        not_open(known).take(RECENT_PROJECT_LIMIT as int)
    }
}

/// A list of references to given entries.
pub open spec fn refers_to(list: Seq<&UiTrackedProjectEntry>, entries: Seq<UiTrackedProjectEntry>) -> bool {
    &&& list.len() == entries.len()
    &&& forall|i: int| 0 <= i < list.len() ==> *#[trigger] list[i] == entries[i]
}

impl UiProjectView {
    /// The remembered projects a Recent list offers, most recently opened first.
    ///
    /// The open project is left out: it is not somewhere to go back to, and both
    /// lists that read this, the welcome splash and File > Open Recent, are ways
    /// of leaving it.
    pub fn recent_projects(&self) -> (r: Vec<&UiTrackedProjectEntry>)
        ensures
            refers_to(r@, offered(self.tracked_projects@)),
    {
        let mut r: Vec<&UiTrackedProjectEntry> = Vec::new();
        let mut i: usize = 0;
        assert(self.tracked_projects@.take(0) =~= Seq::empty());
        while i < self.tracked_projects.len()
            invariant
                i <= self.tracked_projects@.len(),
                refers_to(r@, offered(self.tracked_projects@.take(i as int))),
            decreases self.tracked_projects@.len() - i,
        {
            let entry = &self.tracked_projects[i];
            assert(self.tracked_projects@.take(i + 1).drop_last() =~= self.tracked_projects@.take(i as int));
            if !entry.is_active && r.len() < RECENT_PROJECT_LIMIT {
                r.push(entry);
            }
            i = i + 1;
        }
        assert(self.tracked_projects@.take(i as int) =~= self.tracked_projects@);
        r
    }
}

/// A Recent list never offers the open project, never holds more than its limit,
/// and leaves a remembered project out only when it is full.
pub proof fn recent_list_leaves_out_the_open_project(known: Seq<UiTrackedProjectEntry>)
    ensures
        offered(known).len() <= RECENT_PROJECT_LIMIT,
        forall|i: int| 0 <= i < offered(known).len() ==> !(#[trigger] offered(known)[i]).is_active,
        forall|i: int| 0 <= i < offered(known).len() ==> known.contains(#[trigger] offered(known)[i]),
        offered(known).len() < RECENT_PROJECT_LIMIT ==> forall|j: int|
            0 <= j < known.len() && !(#[trigger] known[j]).is_active ==> offered(known).contains(known[j]),
{
    lemma_not_open(known);
}

proof fn lemma_not_open(known: Seq<UiTrackedProjectEntry>)
    ensures
        forall|i: int|
            0 <= i < not_open(known).len() ==> !(#[trigger] not_open(known)[i]).is_active && known.contains(not_open(known)[i]),
        forall|j: int| 0 <= j < known.len() && !(#[trigger] known[j]).is_active ==> not_open(known).contains(known[j]),
    decreases known.len(),
{
    if known.len() > 0 {
        let rest = known.drop_last();
        lemma_not_open(rest);
        assert forall|i: int| 0 <= i < not_open(known).len() implies !(#[trigger] not_open(known)[i]).is_active && known.contains(
            not_open(known)[i],
        ) by {
            if i < not_open(rest).len() {
                assert(rest.contains(not_open(rest)[i]));
                let k = choose|k: int| 0 <= k < rest.len() && rest[k] == not_open(rest)[i];
                assert(known[k] == not_open(known)[i]);
            } else {
                assert(known[known.len() - 1] == not_open(known)[i]);
            }
        }
        assert forall|j: int| 0 <= j < known.len() && !(#[trigger] known[j]).is_active implies not_open(known).contains(
            known[j],
        ) by {
            if j < rest.len() {
                assert(rest[j] == known[j]);
                let k = choose|k: int| 0 <= k < not_open(rest).len() && not_open(rest)[k] == rest[j];
                assert(not_open(known)[k] == known[j]);
            } else {
                assert(not_open(known)[not_open(rest).len() as int] == known[j]);
            }
        }
    }
}

/// There is something to save exactly where there are edits, or no place yet that holds the
/// project: no file on the desktop, no record in the browser.
pub proof fn unsaved_projects_have_edits_or_no_place(entry: UiProjectEntry, platform: Platform)
    ensures
        entry.dirty ==> entry.is_unsaved(platform),
        !entry.dirty && platform is Desktop ==> (entry.is_unsaved(platform) <==> entry.path is None),
        !entry.dirty && platform is Browser ==> (entry.is_unsaved(platform) <==> !entry.stored_in_browser),
{
}

/// The remembered projects keep their order, and only the open one is taken out: those of two
/// lists together are those of the one and then of the other.
pub proof fn remembered_projects_keep_their_order(
    first: Seq<UiTrackedProjectEntry>,
    second: Seq<UiTrackedProjectEntry>,
    entry: UiTrackedProjectEntry,
)
    ensures
        not_open(first + second) == not_open(first) + not_open(second),
        not_open(seq![entry]) == (if entry.is_active {
            Seq::empty()
        } else {
            seq![entry]
        }),
    decreases second.len(),
{
    let one = seq![entry];
    assert(one.drop_last() =~= Seq::<UiTrackedProjectEntry>::empty());
    assert(not_open(one.drop_last()) =~= Seq::<UiTrackedProjectEntry>::empty());
    assert(not_open(one) =~= (if entry.is_active {
        Seq::empty()
    } else {
        seq![entry]
    }));
    if second.len() == 0 {
        assert(first + second =~= first);
        assert(not_open(first) + not_open(second) =~= not_open(first));
    } else {
        remembered_projects_keep_their_order(first, second.drop_last(), entry);
        assert((first + second).drop_last() =~= first + second.drop_last());
        assert(not_open(first + second) =~= not_open(first) + not_open(second));
    }
}

/// A Recent list offers the first of them, as many as there are up to ten.
pub proof fn recent_list_offers_the_first_ones(known: Seq<UiTrackedProjectEntry>, place: int)
    requires
        0 <= place < offered(known).len(),
    ensures
        offered(known)[place] == not_open(known)[place],
        not_open(known).len() <= 10 ==> offered(known).len() == not_open(known).len(),
        not_open(known).len() > 10 ==> offered(known).len() == 10,
{
}

/// A list that refers to entries holds each of them, in their order, and no other.
pub proof fn references_are_to_the_entries(list: Seq<&UiTrackedProjectEntry>, entries: Seq<UiTrackedProjectEntry>, place: int)
    requires
        refers_to(list, entries),
    ensures
        list.len() == entries.len(),
        0 <= place < entries.len() ==> *list[place] == entries[place],
{
}

} // verus!
