//! The menus of a session: which command a numbered choice means on each
//! screen for each role, and which screen comes next. Lab managers
//! administer categories, vendors, users and the audit trail, and may edit
//! or delete items; assistants work on items and maintenance only.
use vstd::prelude::*;

use crate::models::{ItemStatus, Role};

verus! {

/// The screens of a signed-in session.
#[derive(Debug, Clone, Copy, PartialEq, Eq, Structural)]
pub enum Screen {
    MainMenu,
    Inventory,
    Maintenance,
    Categories,
    Vendors,
    Users,
}

/// What a choice on a screen asks for.
#[derive(Debug, Clone, Copy, PartialEq, Eq, Structural)]
pub enum Command {
    /// The choice means nothing here.
    Invalid,
    /// The choice exists but not for this role.
    Unavailable,
    /// Back to the main menu.
    Back,
    /// End the session.
    Logout,
    Open(Screen),
    ShowAudit,
    ListItems,
    AddItem,
    EditItem,
    ChangeItemStatus,
    DeleteItem,
    AddMaintenance,
    ListMaintenance,
    DeleteMaintenance,
    ListCategories,
    CreateCategory,
    UpdateCategory,
    DeleteCategory,
    ListVendors,
    CreateVendor,
    UpdateVendor,
    DeleteVendor,
    ListUsers,
    CreateAssistant,
    UpdateUserRole,
    ResetPassword,
    DeleteUser,
}

/// What a choice on the sign-in screen asks for.
#[derive(Debug, Clone, Copy, PartialEq, Eq, Structural)]
pub enum LoginCommand {
    SignIn,
    Quit,
    Invalid,
}

pub open spec fn login_command_spec(choice: u32) -> LoginCommand {
    if choice == 1 {
        LoginCommand::SignIn
    } else if choice == 0 {
        LoginCommand::Quit
    } else {
        LoginCommand::Invalid
    }
}

/// The sign-in screen: 1 signs in, 0 quits.
pub fn login_command(choice: u32) -> (r: LoginCommand)
    ensures
        r == login_command_spec(choice),
{
    if choice == 1 {
        LoginCommand::SignIn
    } else if choice == 0 {
        LoginCommand::Quit
    } else {
        LoginCommand::Invalid
    }
}

pub open spec fn main_menu_spec(role: Role, choice: u32) -> Command {
    match role {
        Role::LabManager => if choice == 1 {
            Command::Open(Screen::Inventory)
        } else if choice == 2 {
            Command::Open(Screen::Maintenance)
        } else if choice == 3 {
            Command::Open(Screen::Categories)
        } else if choice == 4 {
            Command::Open(Screen::Vendors)
        } else if choice == 5 {
            Command::Open(Screen::Users)
        } else if choice == 6 {
            Command::ShowAudit
        } else if choice == 0 {
            Command::Logout
        } else {
            Command::Invalid
        },
        Role::Assistant => if choice == 1 {
            Command::Open(Screen::Inventory)
        } else if choice == 2 {
            Command::Open(Screen::Maintenance)
        } else if choice == 0 {
            Command::Logout
        } else {
            Command::Invalid
        },
    }
}

pub open spec fn inventory_menu_spec(role: Role, choice: u32) -> Command {
    if choice == 1 {
        Command::ListItems
    } else if choice == 2 {
        Command::AddItem
    } else if choice == 3 {
        if role == Role::LabManager {
            Command::EditItem
        } else {
            Command::ChangeItemStatus
        }
    } else if choice == 4 {
        if role == Role::LabManager {
            Command::ChangeItemStatus
        } else {
            Command::Unavailable
        }
    } else if choice == 5 {
        if role == Role::LabManager {
            Command::DeleteItem
        } else {
            Command::Unavailable
        }
    } else if choice == 0 {
        Command::Back
    } else {
        Command::Invalid
    }
}

pub open spec fn maintenance_menu_spec(choice: u32) -> Command {
    if choice == 1 {
        Command::AddMaintenance
    } else if choice == 2 {
        Command::ListMaintenance
    } else if choice == 3 {
        Command::DeleteMaintenance
    } else if choice == 0 {
        Command::Back
    } else {
        Command::Invalid
    }
}

pub open spec fn categories_menu_spec(choice: u32) -> Command {
    if choice == 1 {
        Command::ListCategories
    } else if choice == 2 {
        Command::CreateCategory
    } else if choice == 3 {
        Command::UpdateCategory
    } else if choice == 4 {
        Command::DeleteCategory
    } else if choice == 0 {
        Command::Back
    } else {
        Command::Invalid
    }
}

pub open spec fn vendors_menu_spec(choice: u32) -> Command {
    if choice == 1 {
        Command::ListVendors
    } else if choice == 2 {
        Command::CreateVendor
    } else if choice == 3 {
        Command::UpdateVendor
    } else if choice == 4 {
        Command::DeleteVendor
    } else if choice == 0 {
        Command::Back
    } else {
        Command::Invalid
    }
}

pub open spec fn users_menu_spec(choice: u32) -> Command {
    if choice == 1 {
        Command::ListUsers
    } else if choice == 2 {
        Command::CreateAssistant
    } else if choice == 3 {
        Command::UpdateUserRole
    } else if choice == 4 {
        Command::ResetPassword
    } else if choice == 5 {
        Command::DeleteUser
    } else if choice == 0 {
        Command::Back
    } else {
        Command::Invalid
    }
}

/// The command that `choice` means on `screen` for a user with `role`.
pub open spec fn command_spec(role: Role, screen: Screen, choice: u32) -> Command {
    match screen {
        Screen::MainMenu => main_menu_spec(role, choice),
        Screen::Inventory => inventory_menu_spec(role, choice),
        Screen::Maintenance => maintenance_menu_spec(choice),
        Screen::Categories => categories_menu_spec(choice),
        Screen::Vendors => vendors_menu_spec(choice),
        Screen::Users => users_menu_spec(choice),
    }
}

/// Which command `choice` means on `screen` for a user with `role`.
pub fn menu_command(role: Role, screen: Screen, choice: u32) -> (r: Command)
    ensures
        r == command_spec(role, screen, choice),
{
    match screen {
        Screen::MainMenu => match role {
            Role::LabManager => {
                if choice == 1 {
                    Command::Open(Screen::Inventory)
                } else if choice == 2 {
                    Command::Open(Screen::Maintenance)
                } else if choice == 3 {
                    Command::Open(Screen::Categories)
                } else if choice == 4 {
                    Command::Open(Screen::Vendors)
                } else if choice == 5 {
                    Command::Open(Screen::Users)
                } else if choice == 6 {
                    Command::ShowAudit
                } else if choice == 0 {
                    Command::Logout
                } else {
                    Command::Invalid
                }
            },
            Role::Assistant => {
                if choice == 1 {
                    Command::Open(Screen::Inventory)
                } else if choice == 2 {
                    Command::Open(Screen::Maintenance)
                } else if choice == 0 {
                    Command::Logout
                } else {
                    Command::Invalid
                }
            },
        },
        Screen::Inventory => {
            let manager = role == Role::LabManager;
            if choice == 1 {
                Command::ListItems
            } else if choice == 2 {
                Command::AddItem
            } else if choice == 3 {
                if manager {
                    Command::EditItem
                } else {
                    Command::ChangeItemStatus
                }
            } else if choice == 4 {
                if manager {
                    Command::ChangeItemStatus
                } else {
                    Command::Unavailable
                }
            } else if choice == 5 {
                if manager {
                    Command::DeleteItem
                } else {
                    Command::Unavailable
                }
            } else if choice == 0 {
                Command::Back
            } else {
                Command::Invalid
            }
        },
        Screen::Maintenance => {
            if choice == 1 {
                Command::AddMaintenance
            } else if choice == 2 {
                Command::ListMaintenance
            } else if choice == 3 {
                Command::DeleteMaintenance
            } else if choice == 0 {
                Command::Back
            } else {
                Command::Invalid
            }
        },
        Screen::Categories => {
            if choice == 1 {
                Command::ListCategories
            } else if choice == 2 {
                Command::CreateCategory
            } else if choice == 3 {
                Command::UpdateCategory
            } else if choice == 4 {
                Command::DeleteCategory
            } else if choice == 0 {
                Command::Back
            } else {
                Command::Invalid
            }
        },
        Screen::Vendors => {
            if choice == 1 {
                Command::ListVendors
            } else if choice == 2 {
                Command::CreateVendor
            } else if choice == 3 {
                Command::UpdateVendor
            } else if choice == 4 {
                Command::DeleteVendor
            } else if choice == 0 {
                Command::Back
            } else {
                Command::Invalid
            }
        },
        Screen::Users => {
            if choice == 1 {
                Command::ListUsers
            } else if choice == 2 {
                Command::CreateAssistant
            } else if choice == 3 {
                Command::UpdateUserRole
            } else if choice == 4 {
                Command::ResetPassword
            } else if choice == 5 {
                Command::DeleteUser
            } else if choice == 0 {
                Command::Back
            } else {
                Command::Invalid
            }
        },
    }
}

/// The screen shown after `command` was carried out on `screen`; `None`
/// when the session ends. The audit trail is shown once, then the main menu
/// is back.
pub open spec fn next_screen_spec(screen: Screen, command: Command) -> Option<Screen> {
    match command {
        Command::Open(s) => Some(s),
        Command::Back => Some(Screen::MainMenu),
        Command::Logout => None,
        _ => Some(screen),
    }
}

/// The screen shown after `command` was carried out on `screen`.
pub fn next_screen(screen: Screen, command: Command) -> (r: Option<Screen>)
    ensures
        r == next_screen_spec(screen, command),
{
    match command {
        Command::Open(s) => Some(s),
        Command::Back => Some(Screen::MainMenu),
        Command::Logout => None,
        _ => Some(screen),
    }
}

/// The status that a choice of the status prompt stands for: 1 available,
/// 2 in service, 3 written off; any other choice stands for none.
pub open spec fn status_choice_spec(choice: u32) -> Option<ItemStatus> {
    if choice == 1 {
        Some(ItemStatus::Available)
    } else if choice == 2 {
        Some(ItemStatus::InService)
    } else if choice == 3 {
        Some(ItemStatus::WrittenOff)
    } else {
        None
    }
}

/// Reads a choice of the status prompt.
pub fn status_from_choice(choice: u32) -> (r: Option<ItemStatus>)
    ensures
        r == status_choice_spec(choice),
{
    if choice == 1 {
        Some(ItemStatus::Available)
    } else if choice == 2 {
        Some(ItemStatus::InService)
    } else if choice == 3 {
        Some(ItemStatus::WrittenOff)
    } else {
        None
    }
}

/// Reads a choice of the role prompt: 1 makes a lab manager, anything else
/// an assistant.
pub fn role_from_choice(choice: u32) -> (r: Role)
    ensures
        r == (if choice == 1 {
            Role::LabManager
        } else {
            Role::Assistant
        }),
{
    if choice == 1 {
        Role::LabManager
    } else {
        Role::Assistant
    }
}

// ---------------------------------------------------------------------------
// Access rules
// ---------------------------------------------------------------------------

/// The commands reserved to lab managers: administering categories,
/// vendors and users, reading the audit trail, editing and deleting items.
pub open spec fn manager_only(c: Command) -> bool {
    match c {
        Command::Open(Screen::Categories) | Command::Open(Screen::Vendors) | Command::Open(
            Screen::Users,
        ) | Command::ShowAudit | Command::EditItem | Command::DeleteItem | Command::ListCategories
        | Command::CreateCategory | Command::UpdateCategory | Command::DeleteCategory
        | Command::ListVendors | Command::CreateVendor | Command::UpdateVendor
        | Command::DeleteVendor | Command::ListUsers | Command::CreateAssistant
        | Command::UpdateUserRole | Command::ResetPassword | Command::DeleteUser => true,
        _ => false,
    }
}

/// The screens a role may be on.
pub open spec fn screen_open_to(role: Role, screen: Screen) -> bool {
    role == Role::LabManager || screen == Screen::MainMenu || screen == Screen::Inventory || screen
        == Screen::Maintenance
}

/// Every session starts on the main menu, which every role may see.
pub proof fn law_session_starts_on_open_screen(role: Role)
    ensures
        screen_open_to(role, Screen::MainMenu),
{
}

/// On a screen open to them, whatever an assistant chooses never yields a
/// command reserved to lab managers.
pub proof fn law_assistant_never_gets_manager_command(screen: Screen, choice: u32)
    requires
        screen_open_to(Role::Assistant, screen),
    ensures
        !manager_only(command_spec(Role::Assistant, screen, choice)),
{
}

/// A session never leaves the screens open to its role: starting on the
/// main menu, every screen it reaches is open to the user's role.
pub proof fn law_screens_stay_open_to_role(role: Role, screen: Screen, choice: u32)
    requires
        screen_open_to(role, screen),
    ensures
        next_screen_spec(screen, command_spec(role, screen, choice)) matches Some(s)
            ==> screen_open_to(role, s),
{
}

/// Only three kinds of command move the session: opening a screen shows
/// that screen, going back shows the main menu, logging out ends the
/// session. Every other command (an action, an invalid or refused choice,
/// showing the audit trail) leaves the user on the screen it was chosen on.
pub proof fn law_only_navigation_moves(screen: Screen, command: Command)
    ensures
        command matches Command::Open(target) ==> next_screen_spec(screen, command) == Some(
            target,
        ),
        command == Command::Back ==> next_screen_spec(screen, command) == Some(Screen::MainMenu),
        command == Command::Logout ==> next_screen_spec(screen, command) is None,
        !(command is Open) && command != Command::Back && command != Command::Logout
            ==> next_screen_spec(screen, command) == Some(screen),
{
}

/// Every choice made on a screen other than the main menu keeps the user
/// there, except `0`, which goes back to the main menu.
pub proof fn law_submenus_repeat_until_back(role: Role, screen: Screen, choice: u32)
    requires
        screen != Screen::MainMenu,
    ensures
        next_screen_spec(screen, command_spec(role, screen, choice)) == (if choice == 0 {
            Some(Screen::MainMenu)
        } else {
            Some(screen)
        }),
{
}

/// A lab manager is never turned away: no choice of theirs is
/// `Unavailable`.
pub proof fn law_manager_never_refused(screen: Screen, choice: u32)
    ensures
        command_spec(Role::LabManager, screen, choice) != Command::Unavailable,
{
}

} // verus!
