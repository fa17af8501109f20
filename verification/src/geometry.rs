//! The registry of displays and of what the compositor reports of them.
//!
//! The compositor reports the properties of a display one by one, in any
//! order and without saying when it is done: the last report of a property
//! stands.

use vstd::prelude::*;

use crate::state::{
    first_index,
    lemma_first_index,
    ObjectId,
    WaysipState,
    WlOutputInfo,
    ZXdgOutputInfo,
};
use crate::utils::{Position, Size};

verus! {

/// A report on the logical geometry of a display.
#[derive(Debug, PartialEq, Eq)]
pub enum LogicalUpdate {
    LogicalSize { width: i32, height: i32 },
    LogicalPosition { x: i32, y: i32 },
    Name { name: String },
    Description { description: String },
    /// Any other report; it is ignored.
    Other,
}

/// A report on a display itself.
#[derive(Debug, PartialEq, Eq)]
pub enum OutputUpdate {
    Name { name: String },
    Description { description: String },
    /// The current video mode.
    Mode { width: i32, height: i32 },
    /// Any other report; it is ignored.
    Other,
}

/// The display objects, in order.
pub open spec fn outputs(displays: Seq<WlOutputInfo>) -> Seq<ObjectId> {
    displays.map_values(|d: WlOutputInfo| d.output)
}

/// The geometry object of every display, in order; none for a display
/// without geometry.
pub open spec fn geometry_objects(displays: Seq<WlOutputInfo>) -> Seq<Option<ObjectId>> {
    displays.map_values(
        |d: WlOutputInfo|
            match d.xdg_output_info {
                Some(geometry) => Some(geometry.zxdg_output),
                None => None,
            },
    )
}

/// The index of the first display that the geometry object belongs to.
pub open spec fn geometry_index(displays: Seq<WlOutputInfo>, source: ObjectId) -> Option<int> {
    geometry_objects(displays).index_of_first(Some(source))
}

/// A geometry object is found at the first display that it belongs to, and
/// nowhere if it belongs to none.
pub proof fn lemma_geometry_index(displays: Seq<WlOutputInfo>, source: ObjectId)
    ensures
        match geometry_index(displays, source) {
            Some(i) => {
                &&& 0 <= i < displays.len()
                &&& displays[i].xdg_output_info matches Some(geometry)
                &&& geometry.zxdg_output == source
                &&& forall|j: int|
                    0 <= j < i ==> geometry_objects(displays)[j] != Some(source)
            },
            None => forall|j: int|
                0 <= j < displays.len() ==> geometry_objects(displays)[j] != Some(source),
        },
{
    geometry_objects(displays).index_of_first_ensures(Some(source));
    match geometry_index(displays, source) {
        Some(i) => {
            assert(geometry_objects(displays)[i] == Some(source));
        },
        None => {},
    }
}

/// Whether the displays can be searched for a geometry object: every display
/// that the search passes has geometry attached. The search passes the
/// displays before the one that the object belongs to, and all of them if it
/// belongs to none.
pub open spec fn searchable(displays: Seq<WlOutputInfo>, source: ObjectId) -> bool {
    let passed = match geometry_index(displays, source) {
        Some(i) => i,
        None => displays.len() as int,
    };
    forall|j: int| 0 <= j < passed ==> (#[trigger] displays[j]).has_geometry()
}

/// Geometry after a report.
pub open spec fn patched(info: ZXdgOutputInfo, update: LogicalUpdate) -> ZXdgOutputInfo {
    match update {
        LogicalUpdate::LogicalSize { width, height } => ZXdgOutputInfo {
            size: Size { width, height },
            ..info
        },
        LogicalUpdate::LogicalPosition { x, y } => ZXdgOutputInfo {
            start_position: Position { x, y },
            ..info
        },
        LogicalUpdate::Name { name } => ZXdgOutputInfo { name, ..info },
        LogicalUpdate::Description { description } => ZXdgOutputInfo { description, ..info },
        LogicalUpdate::Other => info,
    }
}

/// A display after a report on itself.
pub open spec fn updated(display: WlOutputInfo, update: OutputUpdate) -> WlOutputInfo {
    match update {
        OutputUpdate::Name { name } => WlOutputInfo { name, ..display },
        OutputUpdate::Description { description } => WlOutputInfo { description, ..display },
        OutputUpdate::Mode { width, height } => WlOutputInfo {
            size: Size { width, height },
            ..display
        },
        OutputUpdate::Other => display,
    }
}

/// The displays after a report of the geometry object `source`: the first
/// display that the object belongs to is patched, and none if there is no
/// such display.
pub open spec fn after_logical(
    displays: Seq<WlOutputInfo>,
    source: ObjectId,
    update: LogicalUpdate,
) -> Seq<WlOutputInfo> {
    match geometry_index(displays, source) {
        Some(i) => displays.update(
            i,
            WlOutputInfo {
                xdg_output_info: Some(patched(displays[i].xdg_output_info->Some_0, update)),
                ..displays[i]
            },
        ),
        None => displays,
    }
}

/// The displays after a report of the display object `source`.
pub open spec fn after_output(displays: Seq<WlOutputInfo>, source: ObjectId, update: OutputUpdate)
    -> Seq<WlOutputInfo> {
    match first_index(outputs(displays), source) {
        Some(i) => displays.update(i, updated(displays[i], update)),
        None => displays,
    }
}

impl WaysipState {
    /// Whether two sessions differ in their displays at most.
    pub open spec fn same_but_displays(self, other: WaysipState) -> bool {
        &&& self.wl_surfaces == other.wl_surfaces
        &&& self.running == other.running
        &&& self.selection_type == other.selection_type
        &&& self.current_pos == other.current_pos
        &&& self.start_pos == other.start_pos
        &&& self.end_pos == other.end_pos
        &&& self.current_screen == other.current_screen
        &&& self.cursor_manager == other.cursor_manager
        &&& self.predefined_boxes == other.predefined_boxes
        &&& self.aspect_ratio == other.aspect_ratio
        &&& self.last_redraw == other.last_redraw
    }

    /// The index of the first display with this display object.
    pub open spec fn output_index(self, output: ObjectId) -> Option<int> {
        first_index(outputs(self.wloutput_infos@), output)
    }

    /// Registers a newly discovered display; nothing is known of it but its
    /// identity.
    pub fn register(&mut self, output: ObjectId)
        ensures
            final(self).wloutput_infos@.len() == old(self).wloutput_infos@.len() + 1,
            final(self).wloutput_infos@.drop_last() == old(self).wloutput_infos@,
            final(self).wloutput_infos@.last().output == output,
            final(self).wloutput_infos@.last().name@ == Seq::<char>::empty(),
            final(self).wloutput_infos@.last().description@ == Seq::<char>::empty(),
            final(self).wloutput_infos@.last().size == (Size { width: 0i32, height: 0i32 }),
            !final(self).wloutput_infos@.last().has_geometry(),
            final(self).same_but_displays(*old(self)),
            old(self).wf() ==> final(self).wf(),
    {
        self.wloutput_infos.push(WlOutputInfo::new(output));
        assert(self.wloutput_infos@.drop_last() =~= old(self).wloutput_infos@);
    }

    /// Finds the display with this display object.
    pub fn find_output(&self, output: ObjectId) -> (found: Option<usize>)
        ensures
            match found {
                Some(i) => self.output_index(output) == Some(i as int) && i
                    < self.wloutput_infos@.len(),
                None => self.output_index(output) is None,
            },
    {
        let ghost keys = outputs(self.wloutput_infos@);
        let mut i: usize = 0;
        while i < self.wloutput_infos.len()
            invariant
                i <= self.wloutput_infos@.len(),
                keys == outputs(self.wloutput_infos@),
                forall|j: int| 0 <= j < i ==> keys[j] != output,
            decreases self.wloutput_infos@.len() - i,
        {
            if self.wloutput_infos[i].output == output {
                proof {
                    assert(keys[i as int] == output);
                    lemma_first_index(keys, output);
                }
                return Some(i);
            }
            assert(keys[i as int] != output);
            i = i + 1;
        }
        proof {
            lemma_first_index(keys, output);
        }
        None
    }

    /// Attaches logical geometry to the display at `index`, reported from
    /// now on by the geometry object `zxdg_output`. Nothing has been
    /// reported yet.
    pub fn attach_geometry(&mut self, index: usize, zxdg_output: ObjectId)
        requires
            index < old(self).wloutput_infos@.len(),
            !old(self).wloutput_infos@[index as int].has_geometry(),
        ensures
            final(self).wloutput_infos@.len() == old(self).wloutput_infos@.len(),
            forall|j: int|
                0 <= j < old(self).wloutput_infos@.len() && j != index
                    ==> final(self).wloutput_infos@[j] == old(self).wloutput_infos@[j],
            ({
                let before = old(self).wloutput_infos@[index as int];
                let after = final(self).wloutput_infos@[index as int];
                &&& after.output == before.output
                &&& after.name == before.name
                &&& after.description == before.description
                &&& after.size == before.size
                &&& after.xdg_output_info matches Some(geometry)
                &&& geometry.zxdg_output == zxdg_output
                &&& geometry.size == (Size { width: 0i32, height: 0i32 })
                &&& geometry.start_position == (Position { x: 0i32, y: 0i32 })
                &&& geometry.name@ == Seq::<char>::empty()
                &&& geometry.description@ == Seq::<char>::empty()
            }),
            final(self).same_but_displays(*old(self)),
            old(self).wf() ==> final(self).wf(),
    {
        self.wloutput_infos[index].xdg_output_info = Some(ZXdgOutputInfo::new(zxdg_output));
    }

    /// Tests whether the displays can be searched for a geometry object.
    pub fn is_searchable(&self, source: ObjectId) -> (yes: bool)
        ensures
            yes == searchable(self.wloutput_infos@, source),
    {
        let ghost keys = geometry_objects(self.wloutput_infos@);
        proof {
            keys.index_of_first_ensures(Some(source));
        }
        let mut i: usize = 0;
        while i < self.wloutput_infos.len()
            invariant
                i <= self.wloutput_infos@.len(),
                keys == geometry_objects(self.wloutput_infos@),
                forall|j: int| 0 <= j < i ==> keys[j] != Some(source),
                forall|j: int| 0 <= j < i ==> (#[trigger] self.wloutput_infos@[j]).has_geometry(),
            decreases self.wloutput_infos@.len() - i,
        {
            proof {
                keys.index_of_first_ensures(Some(source));
            }
            match &self.wloutput_infos[i].xdg_output_info {
                None => {
                    assert(keys[i as int] is None);
                    assert(!self.wloutput_infos@[i as int].has_geometry());
                    return false;
                },
                Some(geometry) => {
                    if geometry.zxdg_output == source {
                        assert(keys[i as int] == Some(source));
                        return true;
                    }
                    assert(keys[i as int] != Some(source));
                },
            }
            i = i + 1;
        }
        proof {
            keys.index_of_first_ensures(Some(source));
        }
        true
    }

    /// Records a report on the logical geometry of a display, made by the
    /// geometry object `source`. The report of an object that belongs to no
    /// display is dropped.
    pub fn update_logical(&mut self, source: ObjectId, update: LogicalUpdate)
        requires
            searchable(old(self).wloutput_infos@, source),
        ensures
            final(self).wloutput_infos@ == after_logical(old(self).wloutput_infos@, source, update),
            final(self).same_but_displays(*old(self)),
            forall|j: int|
                0 <= j < old(self).wloutput_infos@.len()
                    ==> final(self).wloutput_infos@[j].has_geometry()
                    == old(self).wloutput_infos@[j].has_geometry(),
            old(self).wf() ==> final(self).wf(),
    {
        let ghost keys = geometry_objects(self.wloutput_infos@);
        proof {
            keys.index_of_first_ensures(Some(source));
        }
        let mut i: usize = 0;
        while i < self.wloutput_infos.len()
            invariant
                i <= self.wloutput_infos@.len(),
                *self == *old(self),
                searchable(self.wloutput_infos@, source),
                keys == geometry_objects(self.wloutput_infos@),
                forall|j: int| 0 <= j < i ==> keys[j] != Some(source),
            decreases self.wloutput_infos@.len() - i,
        {
            proof {
                keys.index_of_first_ensures(Some(source));
                if !self.wloutput_infos@[i as int].has_geometry() {
                    assert(keys[i as int] is None);
                }
            }
            let id = self.wloutput_infos[i].xdg_output_info.as_ref().unwrap().zxdg_output;
            if id == source {
                assert(keys[i as int] == Some(source));
                match &mut self.wloutput_infos[i].xdg_output_info {
                    Some(info) => {
                        match update {
                            LogicalUpdate::LogicalSize { width, height } => {
                                info.size = Size { width, height };
                            },
                            LogicalUpdate::LogicalPosition { x, y } => {
                                info.start_position = Position { x, y };
                            },
                            LogicalUpdate::Name { name } => {
                                info.name = name;
                            },
                            LogicalUpdate::Description { description } => {
                                info.description = description;
                            },
                            LogicalUpdate::Other => {},
                        }
                    },
                    None => {},
                }
                assert(self.wloutput_infos@ =~= after_logical(
                    old(self).wloutput_infos@,
                    source,
                    update,
                ));
                proof {
                    if old(self).wf() {
                        assert forall|j: int| 0 <= j < self.wl_surfaces@.len() implies (
                        #[trigger] self.wloutput_infos@[j]).has_geometry() by {
                            assert(old(self).wloutput_infos@[j].has_geometry());
                        }
                    }
                }
                return ;
            }
            assert(keys[i as int] != Some(source));
            i = i + 1;
        }
        proof {
            keys.index_of_first_ensures(Some(source));
        }
    }

    /// Records a report on a display, made by the display object `source`.
    pub fn update_output(&mut self, source: ObjectId, update: OutputUpdate)
        requires
            old(self).output_index(source) is Some,
        ensures
            final(self).wloutput_infos@ == after_output(old(self).wloutput_infos@, source, update),
            final(self).same_but_displays(*old(self)),
            old(self).wf() ==> final(self).wf(),
    {
        match self.find_output(source) {
            Some(i) => {
                match update {
                    OutputUpdate::Name { name } => {
                        self.wloutput_infos[i].name = name;
                    },
                    OutputUpdate::Description { description } => {
                        self.wloutput_infos[i].description = description;
                    },
                    OutputUpdate::Mode { width, height } => {
                        self.wloutput_infos[i].size = Size { width, height };
                    },
                    OutputUpdate::Other => {},
                }
                assert(self.wloutput_infos@ =~= after_output(
                    old(self).wloutput_infos@,
                    source,
                    update,
                ));
                proof {
                    if old(self).wf() {
                        assert forall|j: int| 0 <= j < self.wl_surfaces@.len() implies (
                        #[trigger] self.wloutput_infos@[j]).has_geometry() by {
                            assert(old(self).wloutput_infos@[j].has_geometry());
                        }
                    }
                }
            },
            None => {},
        }
    }
}

/// The property that a report is about; none for a report that is ignored.
pub open spec fn property_of(update: LogicalUpdate) -> Option<int> {
    match update {
        LogicalUpdate::LogicalSize { .. } => Some(0),
        LogicalUpdate::LogicalPosition { .. } => Some(1),
        LogicalUpdate::Name { .. } => Some(2),
        LogicalUpdate::Description { .. } => Some(3),
        LogicalUpdate::Other => None,
    }
}

/// The last report of a property stands: a second report of the same
/// property overwrites the first. Reports of different properties do not
/// disturb each other, in whichever order they come, and a report that is
/// ignored changes nothing.
pub proof fn lemma_last_write_wins(
    info: ZXdgOutputInfo,
    first: LogicalUpdate,
    second: LogicalUpdate,
)
    ensures
        property_of(first) == property_of(second) ==> patched(patched(info, first), second)
            == patched(info, second),
        property_of(first) != property_of(second) ==> patched(patched(info, first), second)
            == patched(patched(info, second), first),
        property_of(first) is None ==> patched(info, first) == info,
{
}

} // verus!
