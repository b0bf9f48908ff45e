//! The application menu behind the header-bar menu button: three
//! sections of entries, each entry binding a label to a window- or
//! application-level action.

use vstd::prelude::*;

verus! {

/// One entry of the application menu.
#[derive(Debug, Clone)]
pub struct MenuEntry {
    /// Text shown in the menu.
    pub label: String,
    /// Full name of the action the entry activates.
    pub action: String,
}

/// Mathematical image of a [`MenuEntry`].
pub struct MenuEntryModel {
    pub label: Seq<char>,
    pub action: Seq<char>,
}

impl View for MenuEntry {
    type V = MenuEntryModel;

    open spec fn view(&self) -> MenuEntryModel {
        MenuEntryModel { label: self.label@, action: self.action@ }
    }
}

/// The images of one menu section.
pub open spec fn section_view(v: Seq<MenuEntry>) -> Seq<MenuEntryModel> {
    v.map_values(|e: MenuEntry| e@)
}

/// The file section: new, open, save.
pub open spec fn spec_file_section() -> Seq<MenuEntryModel> {
    seq![
        MenuEntryModel { label: "新建"@, action: "win.new"@ },
        MenuEntryModel { label: "打开"@, action: "win.open"@ },
        MenuEntryModel { label: "保存"@, action: "win.save"@ },
    ]
}

/// The edit section: preferences.
pub open spec fn spec_edit_section() -> Seq<MenuEntryModel> {
    seq![MenuEntryModel { label: "首选项"@, action: "win.preferences"@ }]
}

/// The help section: about, quit.
pub open spec fn spec_help_section() -> Seq<MenuEntryModel> {
    seq![
        MenuEntryModel { label: "关于"@, action: "app.about"@ },
        MenuEntryModel { label: "退出"@, action: "app.quit"@ },
    ]
}

/// Icon on the menu button.
pub open spec fn spec_menu_button_icon() -> Seq<char> {
    "open-menu-symbolic"@
}

/// The menu button and the menu model behind it.
pub struct AppMenu {
    file_section: Vec<MenuEntry>,
    edit_section: Vec<MenuEntry>,
    help_section: Vec<MenuEntry>,
    button_icon: String,
}

impl AppMenu {
    /// The file section's entries.
    pub closed spec fn file_entries(&self) -> Seq<MenuEntryModel> {
        section_view(self.file_section@)
    }

    /// The edit section's entries.
    pub closed spec fn edit_entries(&self) -> Seq<MenuEntryModel> {
        section_view(self.edit_section@)
    }

    /// The help section's entries.
    pub closed spec fn help_entries(&self) -> Seq<MenuEntryModel> {
        section_view(self.help_section@)
    }

    /// Icon on the menu button.
    pub closed spec fn icon_name(&self) -> Seq<char> {
        self.button_icon@
    }

    /// The menu with its three sections and the menu button's icon.
    pub fn new() -> (r: AppMenu)
        ensures
            r.file_entries() == spec_file_section(),
            r.edit_entries() == spec_edit_section(),
            r.help_entries() == spec_help_section(),
            r.icon_name() == spec_menu_button_icon(),
    {
        let mut file_section: Vec<MenuEntry> = Vec::new();
        file_section.push(MenuEntry {
            label: String::from_str("新建"),
            action: String::from_str("win.new"),
        });
        file_section.push(MenuEntry {
            label: String::from_str("打开"),
            action: String::from_str("win.open"),
        });
        file_section.push(MenuEntry {
            label: String::from_str("保存"),
            action: String::from_str("win.save"),
        });

        let mut edit_section: Vec<MenuEntry> = Vec::new();
        edit_section.push(MenuEntry {
            label: String::from_str("首选项"),
            action: String::from_str("win.preferences"),
        });

        let mut help_section: Vec<MenuEntry> = Vec::new();
        help_section.push(MenuEntry {
            label: String::from_str("关于"),
            action: String::from_str("app.about"),
        });
        help_section.push(MenuEntry {
            label: String::from_str("退出"),
            action: String::from_str("app.quit"),
        });

        let r = AppMenu {
            file_section,
            edit_section,
            help_section,
            button_icon: String::from_str("open-menu-symbolic"),
        };
        proof {
            assert(r.file_entries() =~= spec_file_section());
            assert(r.edit_entries() =~= spec_edit_section());
            assert(r.help_entries() =~= spec_help_section());
        }
        r
    }

    /// The file section's entries.
    pub fn file_section(&self) -> (r: &Vec<MenuEntry>)
        ensures
            section_view(r@) == self.file_entries(),
    {
        &self.file_section
    }

    /// The edit section's entries.
    pub fn edit_section(&self) -> (r: &Vec<MenuEntry>)
        ensures
            section_view(r@) == self.edit_entries(),
    {
        &self.edit_section
    }

    /// The help section's entries.
    pub fn help_section(&self) -> (r: &Vec<MenuEntry>)
        ensures
            section_view(r@) == self.help_entries(),
    {
        &self.help_section
    }

    /// Icon on the menu button.
    pub fn menu_button(&self) -> (r: &String)
        ensures
            r@ == self.icon_name(),
    {
        &self.button_icon
    }
}

} // verus!
