//! Tray items: the stored configuration of each tray and whether its
//! native item exists. A tray can be hidden (its native item removed) and
//! shown again from the stored configuration.
use vstd::prelude::*;
use std::collections::HashMap;
use crate::ops::id_message;
use crate::text::{concat, decimal_string};

verus! {

broadcast use vstd::std_specs::hash::group_hash_axioms;

/// A tray's configuration and native item (0 when there is none).
pub struct TrayState<Hd> {
    pub title: String,
    pub image: String,
    pub menu_config: Option<String>,
    pub is_template: bool,
    pub width: u32,
    pub height: u32,
    pub handler: Option<Hd>,
    pub ptr: usize,
    pub visible: bool,
}

/// The trays and the next id to hand out.
pub struct Trays<Hd> {
    pub trays: HashMap<u32, TrayState<Hd>>,
    pub next_tray_id: u32,
}

/// The same tray with another native item and visibility.
pub open spec fn with_native<Hd>(s: TrayState<Hd>, ptr: usize, visible: bool) -> TrayState<Hd> {
    TrayState { ptr, visible, ..s }
}

impl<Hd: Copy> Trays<Hd> {
    /// Every tray id is non-zero and below the next id to hand out, so the
    /// next id is always fresh.
    pub open spec fn wf(&self) -> bool {
        &&& self.next_tray_id >= 1
        &&& forall|id: u32| #[trigger]
            self.trays@.contains_key(id) ==> 1 <= id < self.next_tray_id
    }

    /// No trays; ids start at 1.
    pub fn new() -> (r: Trays<Hd>)
        ensures
            r.wf(),
            r.trays@ == Map::<u32, TrayState<Hd>>::empty(),
            r.next_tray_id == 1,
    {
        Trays { trays: HashMap::new(), next_tray_id: 1 }
    }

    /// Store `state` under the next id (ids simply count up).
    pub fn insert_tray(&mut self, state: TrayState<Hd>) -> (r: u32)
        requires
            old(self).wf(),
            old(self).next_tray_id < u32::MAX,
        ensures
            final(self).wf(),
            r != 0,
            !old(self).trays@.contains_key(r),
            r == old(self).next_tray_id,
            final(self).next_tray_id == old(self).next_tray_id + 1,
            final(self).trays@ == old(self).trays@.insert(r, state),
    {
        let id = self.next_tray_id;
        self.next_tray_id = id + 1;
        self.trays.insert(id, state);
        id
    }

    /// Drop a tray's configuration.
    pub fn remove_tray(&mut self, tray_id: u32) -> (r: Option<TrayState<Hd>>)
        requires
            old(self).wf(),
        ensures
            final(self).wf(),
            final(self).trays@ == old(self).trays@.remove(tray_id),
            final(self).next_tray_id == old(self).next_tray_id,
            r == (if old(self).trays@.contains_key(tray_id) {
                Some(old(self).trays@[tray_id])
            } else {
                None
            }),
    {
        self.trays.remove(&tray_id)
    }

    /// Record the native item created for a tray, now visible.
    pub fn tray_created(&mut self, tray_id: u32, ptr: usize)
        requires
            old(self).wf(),
        ensures
            final(self).wf(),
            final(self).next_tray_id == old(self).next_tray_id,
            final(self).trays@ == (if old(self).trays@.contains_key(tray_id) {
                old(self).trays@.insert(tray_id, with_native(old(self).trays@[tray_id], ptr, true))
            } else {
                old(self).trays@
            }),
    {
        if let Some(s) = self.trays.remove(&tray_id) {
            self.trays.insert(tray_id, TrayState { ptr, visible: true, ..s });
        }
    }

    /// Hide a tray: its native item is forgotten and returned for removal
    /// (0 when there is none or the tray is unknown).
    pub fn hide_native_tray(&mut self, tray_id: u32) -> (r: usize)
        requires
            old(self).wf(),
        ensures
            final(self).wf(),
            final(self).next_tray_id == old(self).next_tray_id,
            if old(self).trays@.contains_key(tray_id) {
                &&& r == old(self).trays@[tray_id].ptr
                &&& final(self).trays@ == old(self).trays@.insert(
                    tray_id,
                    with_native(old(self).trays@[tray_id], 0, false),
                )
            } else {
                r == 0 && final(self).trays@ == old(self).trays@
            },
    {
        match self.trays.remove(&tray_id) {
            Some(s) => {
                let ptr = s.ptr;
                self.trays.insert(tray_id, TrayState { ptr: 0, visible: false, ..s });
                ptr
            },
            None => 0,
        }
    }

    /// Store a new title; returns the native item to update (0: none).
    pub fn set_tray_title(&mut self, tray_id: u32, title: String) -> (r: usize)
        requires
            old(self).wf(),
        ensures
            final(self).wf(),
            final(self).next_tray_id == old(self).next_tray_id,
            if old(self).trays@.contains_key(tray_id) {
                &&& r == old(self).trays@[tray_id].ptr
                &&& final(self).trays@ == old(self).trays@.insert(
                    tray_id,
                    TrayState { title, ..old(self).trays@[tray_id] },
                )
            } else {
                r == 0 && final(self).trays@ == old(self).trays@
            },
    {
        match self.trays.remove(&tray_id) {
            Some(s) => {
                let ptr = s.ptr;
                self.trays.insert(tray_id, TrayState { title, ..s });
                ptr
            },
            None => 0,
        }
    }

    /// Store a new image; returns the native item to update (0: none).
    pub fn set_tray_image(&mut self, tray_id: u32, image: String) -> (r: usize)
        requires
            old(self).wf(),
        ensures
            final(self).wf(),
            final(self).next_tray_id == old(self).next_tray_id,
            if old(self).trays@.contains_key(tray_id) {
                &&& r == old(self).trays@[tray_id].ptr
                &&& final(self).trays@ == old(self).trays@.insert(
                    tray_id,
                    TrayState { image, ..old(self).trays@[tray_id] },
                )
            } else {
                r == 0 && final(self).trays@ == old(self).trays@
            },
    {
        match self.trays.remove(&tray_id) {
            Some(s) => {
                let ptr = s.ptr;
                self.trays.insert(tray_id, TrayState { image, ..s });
                ptr
            },
            None => 0,
        }
    }

    /// Store a new menu; returns the native item to update (0: none).
    pub fn set_tray_menu(&mut self, tray_id: u32, menu_config: String) -> (r: usize)
        requires
            old(self).wf(),
        ensures
            final(self).wf(),
            final(self).next_tray_id == old(self).next_tray_id,
            if old(self).trays@.contains_key(tray_id) {
                &&& r == old(self).trays@[tray_id].ptr
                &&& final(self).trays@ == old(self).trays@.insert(
                    tray_id,
                    TrayState { menu_config: Some(menu_config), ..old(self).trays@[tray_id] },
                )
            } else {
                r == 0 && final(self).trays@ == old(self).trays@
            },
    {
        match self.trays.remove(&tray_id) {
            Some(s) => {
                let ptr = s.ptr;
                self.trays.insert(tray_id, TrayState { menu_config: Some(menu_config), ..s });
                ptr
            },
            None => 0,
        }
    }

    /// The native item of a tray (0: none or unknown tray).
    pub fn tray_ptr(&self, tray_id: u32) -> (r: usize)
        ensures
            r == (if self.trays@.contains_key(tray_id) {
                self.trays@[tray_id].ptr
            } else {
                0
            }),
    {
        match self.trays.get(&tray_id) {
            Some(s) => s.ptr,
            None => 0,
        }
    }

    /// Record the native item made for a new tray (0 when making it failed,
    /// which drops the tray).
    pub fn create_tray_complete(&mut self, tray_id: u32, ptr: usize) -> (r: Result<u32, String>)
        requires
            old(self).wf(),
        ensures
            final(self).wf(),
            final(self).next_tray_id == old(self).next_tray_id,
            ptr == 0 ==> (r matches Err(e) && e@ == "Failed to create tray"@ && final(self).trays@
                == old(self).trays@.remove(tray_id)),
            ptr != 0 ==> r == Ok::<u32, String>(tray_id) && final(self).trays@ == (if old(
                self,
            ).trays@.contains_key(tray_id) {
                old(self).trays@.insert(tray_id, with_native(old(self).trays@[tray_id], ptr, true))
            } else {
                old(self).trays@
            }),
    {
        if ptr == 0 {
            self.trays.remove(&tray_id);
            return Err(String::from_str("Failed to create tray"));
        }
        self.tray_created(tray_id, ptr);
        Ok(tray_id)
    }

    /// Record the native item made to show a hidden tray (0 when making it
    /// failed, which leaves the tray as it was).
    pub fn show_tray_complete(&mut self, tray_id: u32, ptr: usize) -> (r: Result<(), String>)
        requires
            old(self).wf(),
        ensures
            final(self).wf(),
            final(self).next_tray_id == old(self).next_tray_id,
            ptr == 0 ==> (r matches Err(e) && e@ == "Failed to create tray"@ && final(self).trays@
                == old(self).trays@),
            ptr != 0 ==> r is Ok && final(self).trays@ == (if old(self).trays@.contains_key(tray_id) {
                old(self).trays@.insert(tray_id, with_native(old(self).trays@[tray_id], ptr, true))
            } else {
                old(self).trays@
            }),
    {
        if ptr == 0 {
            return Err(String::from_str("Failed to create tray"));
        }
        self.tray_created(tray_id, ptr);
        Ok(())
    }

    /// What showing a tray takes.
    pub fn show_tray_plan(&self, tray_id: u32) -> (r: ShowTray<Hd>)
        ensures
            !self.trays@.contains_key(tray_id) ==> (r matches ShowTray::NotFound(e) && e@
                == id_message("Tray "@, tray_id, " not found"@)),
            self.trays@.contains_key(tray_id) && self.trays@[tray_id].visible
                && self.trays@[tray_id].ptr != 0 ==> r is AlreadyVisible,
            self.trays@.contains_key(tray_id) && !(self.trays@[tray_id].visible
                && self.trays@[tray_id].ptr != 0) ==> ({
                let s = self.trays@[tray_id];
                r matches ShowTray::Create { title, image, is_template, width, height, handler, menu_config }
                    && title@ == s.title@ && image@ == s.image@ && is_template == s.is_template
                    && width == s.width && height == s.height && handler == s.handler
                    && match (menu_config, s.menu_config) {
                    (Some(a), Some(b)) => a@ == b@,
                    (None, None) => true,
                    _ => false,
                }
            }),
    {
        let s = match self.trays.get(&tray_id) {
            Some(s) => s,
            None => {
                let msg = concat(String::from_str("Tray "), decimal_string(tray_id as u64).as_str());
                return ShowTray::NotFound(concat(msg, " not found"));
            },
        };
        if s.visible && s.ptr != 0 {
            return ShowTray::AlreadyVisible;
        }
        let menu_config = match &s.menu_config {
            Some(m) => Some(m.clone()),
            None => None,
        };
        ShowTray::Create {
            title: s.title.clone(),
            image: s.image.clone(),
            is_template: s.is_template,
            width: s.width,
            height: s.height,
            handler: s.handler,
            menu_config,
        }
    }
}

/// A new tray gets an id that no tray has, and when making its native item
/// fails the trays are exactly as before the tray was added.
pub proof fn lemma_failed_tray_creation_restores<Hd: Copy>(before: Trays<Hd>, state: TrayState<Hd>)
    requires
        before.wf(),
        before.next_tray_id < u32::MAX,
    ensures
        !before.trays@.contains_key(before.next_tray_id),
        before.trays@.insert(before.next_tray_id, state).remove(before.next_tray_id)
            == before.trays@,
{
    assert(before.trays@.insert(before.next_tray_id, state).remove(before.next_tray_id)
        =~= before.trays@);
}

/// What showing a tray takes.
pub enum ShowTray<Hd> {
    /// The tray is unknown: the error to record.
    NotFound(String),
    /// It already has a visible native item.
    AlreadyVisible,
    /// Create its native item from the stored configuration, then call
    /// [`Trays::tray_created`].
    Create {
        title: String,
        image: String,
        is_template: bool,
        width: u32,
        height: u32,
        handler: Option<Hd>,
        menu_config: Option<String>,
    },
}

} // verus!
