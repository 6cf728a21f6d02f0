//! Capturable targets: displays and windows.
//!
//! A target is a point-in-time snapshot of a capturable surface, holding the
//! plain values the engine reads from it: an identifier, a title, native
//! dimensions, and (for displays) the position inside the desktop and the
//! DPI scale factor. Enumeration of live targets is the job of the native
//! layer around the library; it fills these snapshots in.

use vstd::prelude::*;
use vstd::string::StringSliceAdditionalSpecFns;

verus! {

/// The kind of surface a target stands for.
#[derive(Debug, Clone, Copy)]
pub enum TargetKind {
    Display,
    Window,
    Audio,
}

/// A capturable window.
#[derive(Debug)]
pub struct Window {
    pub id: u32,
    pub title: String,
    /// Native width in logical points.
    pub width: u64,
    /// Native height in logical points.
    pub height: u64,
}

impl Clone for Window {
    fn clone(&self) -> (r: Self)
        ensures
            r == *self,
    {
        Window { id: self.id, title: self.title.clone(), width: self.width, height: self.height }
    }
}

/// A capturable display.
#[derive(Debug)]
pub struct Display {
    pub id: u32,
    pub title: String,
    /// Native width in logical points.
    pub width: u64,
    /// Native height in logical points.
    pub height: u64,
    /// Horizontal position of this display inside the desktop.
    pub x_offset: i64,
    /// Vertical position of this display inside the desktop.
    pub y_offset: i64,
    /// Ratio of native pixels to logical points.
    pub scale_factor: u64,
}

impl Clone for Display {
    fn clone(&self) -> (r: Self)
        ensures
            r == *self,
    {
        Display {
            id: self.id,
            title: self.title.clone(),
            width: self.width,
            height: self.height,
            x_offset: self.x_offset,
            y_offset: self.y_offset,
            scale_factor: self.scale_factor,
        }
    }
}

/// A capturable surface: a display or a window.
#[derive(Debug)]
pub enum Target {
    Window(Window),
    Display(Display),
}

impl Clone for Target {
    fn clone(&self) -> (r: Self)
        ensures
            r == *self,
    {
        match self {
            Target::Window(w) => Target::Window(w.clone()),
            Target::Display(d) => Target::Display(d.clone()),
        }
    }
}

impl Target {
    /// The DPI scale factor of the target: the one recorded for a display,
    /// and 1 for a window.
    pub open spec fn spec_scale_factor(self) -> u64 {
        match self {
            Target::Display(d) => d.scale_factor,
            Target::Window(_) => 1u64,
        }
    }

    /// The native dimensions of the target, in logical points.
    pub open spec fn spec_dimensions(self) -> (u64, u64) {
        match self {
            Target::Display(d) => (d.width, d.height),
            Target::Window(w) => (w.width, w.height),
        }
    }
}

/// The DPI scale factor of a target (1 for windows).
pub fn get_scale_factor(target: &Target) -> (r: u64)
    ensures
        r == target.spec_scale_factor(),
{
    match target {
        Target::Display(d) => d.scale_factor,
        Target::Window(_) => 1,
    }
}

/// The native dimensions of a target, in logical points.
pub fn get_target_dimensions(target: &Target) -> (r: (u64, u64))
    ensures
        r == target.spec_dimensions(),
{
    match target {
        Target::Display(d) => (d.width, d.height),
        Target::Window(w) => (w.width, w.height),
    }
}

/// The rectangle a capture of this target grabs, as
/// `(x, y, width, height, is_window)`: a display is grabbed at its desktop
/// offset, a window at its own origin.
pub fn capture_rect(target: &Target) -> (r: (i64, i64, u64, u64, bool))
    ensures
        target is Display ==> r == (
            target->Display_0.x_offset,
            target->Display_0.y_offset,
            target->Display_0.width,
            target->Display_0.height,
            false,
        ),
        target is Window ==> r == (
            0i64,
            0i64,
            target->Window_0.width,
            target->Window_0.height,
            true,
        ),
{
    match target {
        Target::Display(d) => (d.x_offset, d.y_offset, d.width, d.height, false),
        Target::Window(w) => (0, 0, w.width, w.height, true),
    }
}

/// Strips one trailing NUL byte from a name a native API handed back.
///
/// Native window and monitor names arrive NUL-terminated; the terminator is
/// not part of the name. A NUL byte is a whole character in UTF-8, so the
/// boundary check before it always passes on well-formed text; it is part
/// of the contract because nothing ties an arbitrary `&str` view to a
/// well-formed byte sequence.
pub fn remove_null_character(input: &str) -> (r: &str)
    ensures
        ({
            let b = input.spec_bytes();
            &&& (b.len() > 0 && b.last() == 0 && vstd::utf8::is_char_boundary(b, b.len() - 1))
                ==> r.spec_bytes() == b.drop_last()
            &&& !(b.len() > 0 && b.last() == 0 && vstd::utf8::is_char_boundary(b, b.len() - 1))
                ==> r.spec_bytes() == b
        }),
{
    let bytes = input.as_bytes();
    let n = bytes.len();
    if n > 0 && bytes[n - 1] == 0 && input.is_char_boundary(n - 1) {
        let (head, _) = input.split_at(n - 1);
        proof {
            assert(head.spec_bytes() =~= input.spec_bytes().drop_last());
        }
        head
    } else {
        input
    }
}

/// Whether a window id is named by the excluded-target list.
pub open spec fn spec_is_excluded_window(excluded: Option<Vec<Target>>, window_id: u32) -> bool {
    match excluded {
        Some(list) => exists|k: int|
            0 <= k < list@.len() && list@[k] is Window && list@[k]->Window_0.id == window_id,
        None => false,
    }
}

/// Whether the excluded-target list names the window with this id. A capture
/// session leaves every such window out of the captured content.
pub fn is_excluded_window(excluded: &Option<Vec<Target>>, window_id: u32) -> (r: bool)
    ensures
        r == spec_is_excluded_window(*excluded, window_id),
{
    match excluded {
        None => false,
        Some(list) => {
            let n = list.len();
            let mut k: usize = 0;
            while k < n
                invariant
                    *excluded is Some && (*excluded)->Some_0 == *list,
                    n == list@.len(),
                    k <= n,
                    forall|m: int|
                        0 <= m < k ==> !(list@[m] is Window && list@[m]->Window_0.id == window_id),
                decreases n - k,
            {
                match &list[k] {
                    Target::Window(w) => {
                        if w.id == window_id {
                            proof {
                                let kk = k as int;
                                assert(0 <= kk < list@.len() && list@[kk] is Window
                                    && list@[kk]->Window_0.id == window_id);
                                assert(exists|m: int|
                                    0 <= m < list@.len() && list@[m] is Window
                                        && list@[m]->Window_0.id == window_id);
                            }
                            return true;
                        }
                    },
                    Target::Display(_) => {},
                }
                k += 1;
            }
            false
        },
    }
}

} // verus!
