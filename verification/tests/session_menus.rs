use lab_inventory::menus::{
    login_command, menu_command, next_screen, role_from_choice, status_from_choice, Command,
    LoginCommand, Screen,
};
use lab_inventory::models::{ItemStatus, Role};

#[test]
fn sign_in_screen() {
    assert_eq!(login_command(1), LoginCommand::SignIn);
    assert_eq!(login_command(0), LoginCommand::Quit);
    assert_eq!(login_command(2), LoginCommand::Invalid);
}

#[test]
fn manager_main_menu() {
    let m = |c| menu_command(Role::LabManager, Screen::MainMenu, c);
    assert_eq!(m(1), Command::Open(Screen::Inventory));
    assert_eq!(m(2), Command::Open(Screen::Maintenance));
    assert_eq!(m(3), Command::Open(Screen::Categories));
    assert_eq!(m(4), Command::Open(Screen::Vendors));
    assert_eq!(m(5), Command::Open(Screen::Users));
    assert_eq!(m(6), Command::ShowAudit);
    assert_eq!(m(0), Command::Logout);
    assert_eq!(m(7), Command::Invalid);
}

#[test]
fn assistant_main_menu() {
    let m = |c| menu_command(Role::Assistant, Screen::MainMenu, c);
    assert_eq!(m(1), Command::Open(Screen::Inventory));
    assert_eq!(m(2), Command::Open(Screen::Maintenance));
    assert_eq!(m(0), Command::Logout);
    for c in [3, 4, 5, 6, 7, 100] {
        assert_eq!(m(c), Command::Invalid);
    }
}

#[test]
fn inventory_menu_by_role() {
    let lm = |c| menu_command(Role::LabManager, Screen::Inventory, c);
    let asst = |c| menu_command(Role::Assistant, Screen::Inventory, c);
    assert_eq!(lm(1), Command::ListItems);
    assert_eq!(lm(2), Command::AddItem);
    assert_eq!(lm(3), Command::EditItem);
    assert_eq!(lm(4), Command::ChangeItemStatus);
    assert_eq!(lm(5), Command::DeleteItem);
    assert_eq!(lm(0), Command::Back);
    assert_eq!(lm(9), Command::Invalid);
    assert_eq!(asst(1), Command::ListItems);
    assert_eq!(asst(2), Command::AddItem);
    assert_eq!(asst(3), Command::ChangeItemStatus);
    assert_eq!(asst(4), Command::Unavailable);
    assert_eq!(asst(5), Command::Unavailable);
    assert_eq!(asst(0), Command::Back);
    assert_eq!(asst(6), Command::Invalid);
}

#[test]
fn other_menus() {
    for role in [Role::LabManager, Role::Assistant] {
        let m = |c| menu_command(role, Screen::Maintenance, c);
        assert_eq!(m(1), Command::AddMaintenance);
        assert_eq!(m(2), Command::ListMaintenance);
        assert_eq!(m(3), Command::DeleteMaintenance);
        assert_eq!(m(0), Command::Back);
        assert_eq!(m(4), Command::Invalid);
    }
    let c = |x| menu_command(Role::LabManager, Screen::Categories, x);
    assert_eq!(
        [c(1), c(2), c(3), c(4), c(0), c(5)],
        [Command::ListCategories, Command::CreateCategory, Command::UpdateCategory, Command::DeleteCategory, Command::Back, Command::Invalid]
    );
    let v = |x| menu_command(Role::LabManager, Screen::Vendors, x);
    assert_eq!(
        [v(1), v(2), v(3), v(4), v(0), v(5)],
        [Command::ListVendors, Command::CreateVendor, Command::UpdateVendor, Command::DeleteVendor, Command::Back, Command::Invalid]
    );
    let u = |x| menu_command(Role::LabManager, Screen::Users, x);
    assert_eq!(
        [u(1), u(2), u(3), u(4), u(5), u(0), u(6)],
        [Command::ListUsers, Command::CreateAssistant, Command::UpdateUserRole, Command::ResetPassword, Command::DeleteUser, Command::Back, Command::Invalid]
    );
}

#[test]
fn screen_transitions() {
    assert_eq!(next_screen(Screen::MainMenu, Command::Open(Screen::Users)), Some(Screen::Users));
    assert_eq!(next_screen(Screen::Users, Command::Back), Some(Screen::MainMenu));
    assert_eq!(next_screen(Screen::MainMenu, Command::Logout), None);
    assert_eq!(next_screen(Screen::MainMenu, Command::ShowAudit), Some(Screen::MainMenu));
    assert_eq!(next_screen(Screen::Inventory, Command::ListItems), Some(Screen::Inventory));
    assert_eq!(next_screen(Screen::Inventory, Command::Invalid), Some(Screen::Inventory));
}

#[test]
fn assistant_session_never_reaches_admin_screens() {
    // Walk every choice sequence of length three from the main menu.
    let admin = [Screen::Categories, Screen::Vendors, Screen::Users];
    let mut frontier = vec![Screen::MainMenu];
    for _ in 0..3 {
        let mut next = Vec::new();
        for s in &frontier {
            for c in 0..8 {
                let cmd = menu_command(Role::Assistant, *s, c);
                assert!(!matches!(cmd, Command::ShowAudit | Command::EditItem | Command::DeleteItem));
                if let Some(n) = next_screen(*s, cmd) {
                    assert!(!admin.contains(&n));
                    next.push(n);
                }
            }
        }
        frontier = next;
    }
}

#[test]
fn status_prompt() {
    assert_eq!(status_from_choice(1), Some(ItemStatus::Available));
    assert_eq!(status_from_choice(2), Some(ItemStatus::InService));
    assert_eq!(status_from_choice(3), Some(ItemStatus::WrittenOff));
    assert_eq!(status_from_choice(0), None);
    assert_eq!(status_from_choice(4), None);
}

#[test]
fn role_prompt() {
    assert_eq!(role_from_choice(1), Role::LabManager);
    assert_eq!(role_from_choice(2), Role::Assistant);
    assert_eq!(role_from_choice(0), Role::Assistant);
}
