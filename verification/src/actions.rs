//! The three tools that the welcome window starts, and which program each of
//! them is on a given desktop.

use crate::notifications::{
    notification, notify_error, notify_success, Notification, NotificationView,
};
use crate::text::str_eq;
use vstd::prelude::*;

verus! {

/// A tool of the system that the welcome window offers to start.
#[derive(Debug, Clone, Copy, PartialEq, Eq, Structural)]
pub enum QuickAction {
    /// The program that installs updates.
    UpdateSystem,
    /// The program that installs applications.
    SoftwareCenter,
    /// The system's settings.
    SystemSettings,
}

impl QuickAction {
    /// The program that starts this tool on the desktop named `desktop`. A
    /// desktop that has none of its own gets the one of GNOME.
    pub open spec fn program(self, desktop: Seq<char>) -> Seq<char> {
        match self {
            QuickAction::UpdateSystem => if desktop == "KDE Plasma"@ {
                "discover"@
            } else if desktop == "GNOME"@ {
                "gnome-software"@
            } else if desktop == "Xfce"@ {
                "xfce4-appfinder"@
            } else if desktop == "Cinnamon"@ || desktop == "MATE"@ || desktop == "Budgie"@ {
                "mintupdate"@
            } else {
                "gnome-software"@
            },
            QuickAction::SoftwareCenter => if desktop == "KDE Plasma"@ {
                "discover"@
            } else if desktop == "GNOME"@ {
                "gnome-software"@
            } else if desktop == "Xfce"@ {
                "xfce4-appfinder"@
            } else if desktop == "Cinnamon"@ || desktop == "MATE"@ || desktop == "Budgie"@ {
                "mintinstall"@
            } else {
                "gnome-software"@
            },
            QuickAction::SystemSettings => if desktop == "KDE Plasma"@ {
                "systemsettings5"@
            } else if desktop == "GNOME"@ {
                "gnome-control-center"@
            } else if desktop == "Xfce"@ {
                "xfce4-settings-manager"@
            } else if desktop == "Cinnamon"@ {
                "cinnamon-settings"@
            } else if desktop == "MATE"@ {
                "mate-control-center"@
            } else {
                "gnome-control-center"@
            },
        }
    }

    /// What the user is told once the program has been started.
    pub open spec fn opened(self) -> Seq<char> {
        match self {
            QuickAction::UpdateSystem => "Update Manager opened"@,
            QuickAction::SoftwareCenter => "Software Center opened"@,
            QuickAction::SystemSettings => "System Settings opened"@,
        }
    }

    /// What the user is told where the program could not be started.
    pub open spec fn failed(self) -> Seq<char> {
        match self {
            QuickAction::UpdateSystem => "Failed to open update manager"@,
            QuickAction::SoftwareCenter => "Failed to open software center"@,
            QuickAction::SystemSettings => "Failed to open system settings"@,
        }
    }

    /// The notification that follows an attempt to start the program.
    pub open spec fn outcome(self, started: bool) -> NotificationView {
        if started {
            notification("Success"@, self.opened())
        } else {
            notification("Error"@, self.failed())
        }
    }

    /// The program to start for this tool on the desktop named `desktop`.
    pub fn command(&self, desktop: &str) -> (r: &'static str)
        ensures
            r@ == self.program(desktop@),
    {
        let kde: bool = str_eq(desktop, "KDE Plasma");
        let gnome: bool = str_eq(desktop, "GNOME");
        let xfce: bool = str_eq(desktop, "Xfce");
        let cinnamon: bool = str_eq(desktop, "Cinnamon");
        let mate: bool = str_eq(desktop, "MATE");
        let budgie: bool = str_eq(desktop, "Budgie");
        match self {
            QuickAction::UpdateSystem => if kde {
                "discover"
            } else if gnome {
                "gnome-software"
            } else if xfce {
                "xfce4-appfinder"
            } else if cinnamon || mate || budgie {
                "mintupdate"
            } else {
                "gnome-software"
            },
            QuickAction::SoftwareCenter => if kde {
                "discover"
            } else if gnome {
                "gnome-software"
            } else if xfce {
                "xfce4-appfinder"
            } else if cinnamon || mate || budgie {
                "mintinstall"
            } else {
                "gnome-software"
            },
            QuickAction::SystemSettings => if kde {
                "systemsettings5"
            } else if gnome {
                "gnome-control-center"
            } else if xfce {
                "xfce4-settings-manager"
            } else if cinnamon {
                "cinnamon-settings"
            } else if mate {
                "mate-control-center"
            } else {
                "gnome-control-center"
            },
        }
    }

    /// What to tell the user after the attempt to start the program:
    /// that it opened, or that it could not be opened.
    pub fn report(&self, started: bool) -> (r: Notification)
        ensures
            r@ == self.outcome(started),
    {
        if started {
            match self {
                QuickAction::UpdateSystem => notify_success("Update Manager opened"),
                QuickAction::SoftwareCenter => notify_success("Software Center opened"),
                QuickAction::SystemSettings => notify_success("System Settings opened"),
            }
        } else {
            match self {
                QuickAction::UpdateSystem => notify_error("Failed to open update manager"),
                QuickAction::SoftwareCenter => notify_error("Failed to open software center"),
                QuickAction::SystemSettings => notify_error("Failed to open system settings"),
            }
        }
    }
}

} // verus!
