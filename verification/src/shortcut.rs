//! The desktop shortcut: what the shell link points at and under which
//! file name it is saved.

use vstd::prelude::*;
use vstd::string::*;
use crate::failure::ShortcutFailure;

verus! {

/// A desktop shortcut to create. Every field is text supplied by the caller.
#[derive(Clone, Debug, PartialEq, Eq)]
pub struct ShortCut {
    pub target_path: String,
    pub shortcut_name: String,
    pub working_dir: String,
    pub description: String,
}

/// What the shortcut creator sets on the shell link, and the name of the
/// file, inside the user's desktop directory, that the link is saved to.
#[derive(Debug, PartialEq, Eq)]
pub struct ShortcutPlan {
    pub target_path: String,
    pub working_dir: String,
    pub description: String,
    pub link_file_name: String,
}

/// A shortcut plan as plain text.
pub struct ShortcutModel {
    pub target_path: Seq<char>,
    pub working_dir: Seq<char>,
    pub description: Seq<char>,
    pub link_file_name: Seq<char>,
}

impl View for ShortcutPlan {
    type V = ShortcutModel;

    open spec fn view(&self) -> ShortcutModel {
        ShortcutModel {
            target_path: self.target_path@,
            working_dir: self.working_dir@,
            description: self.description@,
            link_file_name: self.link_file_name@,
        }
    }
}

/// The file name of a shortcut: its name with the link extension.
pub open spec fn link_file_name(shortcut_name: Seq<char>) -> Seq<char> {
    shortcut_name + ".lnk"@
}

/// The plan for a shortcut: target, working directory and description are
/// taken over as they are.
pub open spec fn planned_shortcut(short_cut: ShortCut) -> ShortcutModel {
    ShortcutModel {
        target_path: short_cut.target_path@,
        working_dir: short_cut.working_dir@,
        description: short_cut.description@,
        link_file_name: link_file_name(short_cut.shortcut_name@),
    }
}

/// Lays out the creation of a desktop shortcut.
pub fn shortcut_plan(short_cut: &ShortCut) -> (plan: ShortcutPlan)
    ensures
        plan@ == planned_shortcut(*short_cut),
{
    let mut file_name = short_cut.shortcut_name.clone();
    file_name.append(".lnk");
    ShortcutPlan {
        target_path: short_cut.target_path.clone(),
        working_dir: short_cut.working_dir.clone(),
        description: short_cut.description.clone(),
        link_file_name: file_name,
    }
}

/// The directory a shortcut is saved in, given what the operating system
/// answered when asked for the user's desktop directory: that directory, or
/// a failure where it names none.
pub open spec fn located(found: Option<String>) -> Result<String, ShortcutFailure> {
    match found {
        Some(dir) => Ok(dir),
        None => Err(ShortcutFailure::NoDesktopDirectory),
    }
}

/// Turns the operating system's answer into the directory a shortcut is
/// saved in.
pub fn locate_desktop(found: Option<String>) -> (outcome: Result<String, ShortcutFailure>)
    ensures
        outcome == located(found),
{
    match found {
        Some(dir) => Ok(dir),
        None => Err(ShortcutFailure::NoDesktopDirectory),
    }
}

} // verus!
