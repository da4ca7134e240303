//! The sections of the file manager's sidebar: Places (home and the user's special
//! directories), custom sections, and Devices. Each item navigates to a `file://` URI.
use vstd::prelude::*;

verus! {

/// The user's special directories.
#[derive(Clone, Copy, Debug, PartialEq, Eq)]
pub enum UserDirectory {
    Desktop,
    Documents,
    Download,
    Music,
    Pictures,
    Videos,
    PublicShare,
    Templates,
}

impl UserDirectory {
    pub open spec fn spec_label(&self) -> Seq<char> {
        match self {
            UserDirectory::Desktop => "Desktop"@,
            UserDirectory::Documents => "Documents"@,
            UserDirectory::Download => "Downloads"@,
            UserDirectory::Music => "Music"@,
            UserDirectory::Pictures => "Pictures"@,
            UserDirectory::Videos => "Videos"@,
            UserDirectory::PublicShare => "Public"@,
            UserDirectory::Templates => "Templates"@,
        }
    }

    pub open spec fn spec_id(&self) -> Seq<char> {
        match self {
            UserDirectory::Desktop => "desktop"@,
            UserDirectory::Documents => "documents"@,
            UserDirectory::Download => "download"@,
            UserDirectory::Music => "music"@,
            UserDirectory::Pictures => "pictures"@,
            UserDirectory::Videos => "videos"@,
            UserDirectory::PublicShare => "publicshare"@,
            UserDirectory::Templates => "templates"@,
        }
    }

    /// The label shown in the sidebar.
    pub fn label(&self) -> (r: String)
        ensures
            r@ == self.spec_label(),
    {
        match self {
            UserDirectory::Desktop => String::from_str("Desktop"),
            UserDirectory::Documents => String::from_str("Documents"),
            UserDirectory::Download => String::from_str("Downloads"),
            UserDirectory::Music => String::from_str("Music"),
            UserDirectory::Pictures => String::from_str("Pictures"),
            UserDirectory::Videos => String::from_str("Videos"),
            UserDirectory::PublicShare => String::from_str("Public"),
            UserDirectory::Templates => String::from_str("Templates"),
        }
    }

    /// The item's identifier: the variant's name in lower case.
    pub fn id(&self) -> (r: String)
        ensures
            r@ == self.spec_id(),
    {
        match self {
            UserDirectory::Desktop => String::from_str("desktop"),
            UserDirectory::Documents => String::from_str("documents"),
            UserDirectory::Download => String::from_str("download"),
            UserDirectory::Music => String::from_str("music"),
            UserDirectory::Pictures => String::from_str("pictures"),
            UserDirectory::Videos => String::from_str("videos"),
            UserDirectory::PublicShare => String::from_str("publicshare"),
            UserDirectory::Templates => String::from_str("templates"),
        }
    }
}

/// The directories that the Places section lists by default.
pub fn default_user_directories() -> (r: Vec<UserDirectory>)
    ensures
        r@ == seq![
            UserDirectory::Desktop,
            UserDirectory::Documents,
            UserDirectory::Download,
            UserDirectory::Music,
            UserDirectory::Pictures,
            UserDirectory::Videos,
        ],
{
    let r = vec![
        UserDirectory::Desktop,
        UserDirectory::Documents,
        UserDirectory::Download,
        UserDirectory::Music,
        UserDirectory::Pictures,
        UserDirectory::Videos,
    ];
    assert(r@ =~= seq![
        UserDirectory::Desktop,
        UserDirectory::Documents,
        UserDirectory::Download,
        UserDirectory::Music,
        UserDirectory::Pictures,
        UserDirectory::Videos,
    ]);
    r
}

pub struct ItemModel {
    pub id: Seq<char>,
    pub label: Seq<char>,
    pub icon: Seq<char>,
    pub uri: Seq<char>,
}

#[derive(Clone, Debug, PartialEq, Eq)]
pub struct SidebarItem {
    pub id: String,
    pub label: String,
    pub icon: String,
    pub uri: String,
}

impl View for SidebarItem {
    type V = ItemModel;

    open spec fn view(&self) -> ItemModel {
        ItemModel { id: self.id@, label: self.label@, icon: self.icon@, uri: self.uri@ }
    }
}

#[derive(Clone, Debug, PartialEq, Eq)]
pub struct SidebarSection {
    pub title: String,
    pub items: Vec<SidebarItem>,
}

pub open spec fn items_view(items: Seq<SidebarItem>) -> Seq<ItemModel> {
    items.map_values(|i: SidebarItem| i@)
}

pub open spec fn section_view(s: SidebarSection) -> (Seq<char>, Seq<ItemModel>) {
    (s.title@, items_view(s.items@))
}

pub open spec fn sections_view(s: Seq<SidebarSection>) -> Seq<(Seq<char>, Seq<ItemModel>)> {
    s.map_values(|x: SidebarSection| section_view(x))
}

impl SidebarSection {
    /// A copy of the section.
    pub fn duplicate(&self) -> (r: SidebarSection)
        ensures
            section_view(r) == section_view(*self),
    {
        let mut items: Vec<SidebarItem> = Vec::new();
        let n = self.items.len();
        let mut i: usize = 0;
        while i < n
            invariant
                n == self.items@.len(),
                0 <= i <= n,
                items_view(items@) == items_view(self.items@).take(i as int),
            decreases n - i,
        {
            let ghost prev = items@;
            let it = &self.items[i];
            let copy = SidebarItem { id: it.id.clone(), label: it.label.clone(), icon: it.icon.clone(), uri: it.uri.clone() };
            assert(copy@ == self.items@[i as int]@);
            items.push(copy);
            assert(items@ == prev.push(copy));
            assert(items_view(items@) =~= items_view(prev).push(copy@));
            assert(items_view(items@) =~= items_view(self.items@).take(i + 1));
            i = i + 1;
        }
        assert(items_view(self.items@).take(n as int) =~= items_view(self.items@));
        SidebarSection { title: self.title.clone(), items }
    }
}

/// The `file://` URI of a path.
pub open spec fn file_uri_text(path: Seq<char>) -> Seq<char> {
    "file://"@ + path
}

pub fn file_uri(path: &String) -> (r: String)
    ensures
        r@ == file_uri_text(path@),
{
    let mut s = String::from_str("file://");
    s.append(path.as_str());
    s
}

/// A special directory as looked up for the Places section: its path where it was
/// found, and its icon name.
pub struct FoundDirectory {
    pub dir: UserDirectory,
    pub path: Option<String>,
    pub icon: String,
}

/// The Places items of the found directories that have a path, in order.
pub open spec fn place_items(found: Seq<FoundDirectory>) -> Seq<ItemModel>
    decreases found.len(),
{
    if found.len() == 0 {
        seq![]
    } else {
        let f = found.last();
        let before = place_items(found.drop_last());
        match f.path {
            Some(p) => before.push(
                ItemModel { id: f.dir.spec_id(), label: f.dir.spec_label(), icon: f.icon@, uri: file_uri_text(p@) },
            ),
            None => before,
        }
    }
}

/// The Places section: home first, then each special directory that was found.
pub fn build_places_section(home: &String, home_icon: &String, found: &Vec<FoundDirectory>) -> (r: SidebarSection)
    ensures
        r.title@ == "Places"@,
        items_view(r.items@) == seq![
            ItemModel { id: "home"@, label: "Home"@, icon: home_icon@, uri: file_uri_text(home@) },
        ] + place_items(found@),
{
    let mut items: Vec<SidebarItem> = Vec::new();
    items.push(SidebarItem {
        id: String::from_str("home"),
        label: String::from_str("Home"),
        icon: home_icon.clone(),
        uri: file_uri(home),
    });
    let ghost head = items_view(items@);
    let n = found.len();
    let mut i: usize = 0;
    while i < n
        invariant
            n == found@.len(),
            0 <= i <= n,
            items_view(items@) == head + place_items(found@.take(i as int)),
        decreases n - i,
    {
        let f = &found[i];
        let ghost prev = items@;
        assert(found@.take(i + 1).drop_last() =~= found@.take(i as int));
        assert(found@.take(i + 1).last() == found@[i as int]);
        match &f.path {
            Some(p) => {
                let item = SidebarItem { id: f.dir.id(), label: f.dir.label(), icon: f.icon.clone(), uri: file_uri(p) };
                items.push(item);
                assert(items@ == prev.push(item));
                assert(items_view(items@) =~= items_view(prev).push(item@));
                assert(items_view(items@) =~= head + place_items(found@.take(i + 1)));
            },
            None => {},
        }
        i = i + 1;
    }
    assert(found@.take(n as int) =~= found@);
    assert(head =~= seq![
        ItemModel { id: "home"@, label: "Home"@, icon: home_icon@, uri: file_uri_text(home@) },
    ]);
    SidebarSection { title: String::from_str("Places"), items }
}

/// What the sidebar shows. Its width is the widget's own concern.
pub struct FilemanSidebarConfig {
    pub show_places: bool,
    pub show_bookmarks: bool,
    pub show_devices: bool,
    pub user_directories: Vec<UserDirectory>,
    pub custom_sections: Vec<SidebarSection>,
    pub use_symbolic_icons: bool,
}

impl FilemanSidebarConfig {
    /// Places shown, bookmarks and devices hidden, the default directories, regular
    /// icons.
    pub fn new() -> (r: FilemanSidebarConfig)
        ensures
            r.show_places && !r.show_bookmarks && !r.show_devices && !r.use_symbolic_icons,
            r.custom_sections@.len() == 0,
            r.user_directories@ == seq![
                UserDirectory::Desktop,
                UserDirectory::Documents,
                UserDirectory::Download,
                UserDirectory::Music,
                UserDirectory::Pictures,
                UserDirectory::Videos,
            ],
    {
        FilemanSidebarConfig {
            show_places: true,
            show_bookmarks: false,
            show_devices: false,
            user_directories: default_user_directories(),
            custom_sections: Vec::new(),
            use_symbolic_icons: false,
        }
    }
}

impl Default for FilemanSidebarConfig {
    fn default() -> (r: FilemanSidebarConfig)
        ensures
            r.show_places && !r.show_bookmarks && !r.show_devices && !r.use_symbolic_icons,
            r.custom_sections@.len() == 0,
            r.user_directories@ == seq![
                UserDirectory::Desktop,
                UserDirectory::Documents,
                UserDirectory::Download,
                UserDirectory::Music,
                UserDirectory::Pictures,
                UserDirectory::Videos,
            ],
    {
        FilemanSidebarConfig::new()
    }
}

impl FilemanSidebarConfig {
    /// Shows or hides the Places section.
    pub fn with_places(self, enabled: bool) -> (r: FilemanSidebarConfig)
        ensures
            r == (FilemanSidebarConfig { show_places: enabled, ..self }),
    {
        FilemanSidebarConfig { show_places: enabled, ..self }
    }

    /// Shows or hides the Bookmarks section.
    pub fn with_bookmarks(self, enabled: bool) -> (r: FilemanSidebarConfig)
        ensures
            r == (FilemanSidebarConfig { show_bookmarks: enabled, ..self }),
    {
        FilemanSidebarConfig { show_bookmarks: enabled, ..self }
    }

    /// Shows or hides the Devices section.
    pub fn with_devices(self, enabled: bool) -> (r: FilemanSidebarConfig)
        ensures
            r == (FilemanSidebarConfig { show_devices: enabled, ..self }),
    {
        FilemanSidebarConfig { show_devices: enabled, ..self }
    }

    /// Sets the special directories that Places lists.
    pub fn with_user_directories(self, dirs: Vec<UserDirectory>) -> (r: FilemanSidebarConfig)
        ensures
            r == (FilemanSidebarConfig { user_directories: dirs, ..self }),
    {
        FilemanSidebarConfig { user_directories: dirs, ..self }
    }

    /// Adds a custom section after the others.
    pub fn with_custom_section(self, section: SidebarSection) -> (r: FilemanSidebarConfig)
        ensures
            r.custom_sections@ == self.custom_sections@.push(section),
            r.show_places == self.show_places && r.show_bookmarks == self.show_bookmarks
                && r.show_devices == self.show_devices && r.user_directories == self.user_directories
                && r.use_symbolic_icons == self.use_symbolic_icons,
    {
        let mut c = self;
        c.custom_sections.push(section);
        c
    }

    /// Uses symbolic icons or regular ones.
    pub fn with_symbolic_icons(self, symbolic: bool) -> (r: FilemanSidebarConfig)
        ensures
            r == (FilemanSidebarConfig { use_symbolic_icons: symbolic, ..self }),
    {
        FilemanSidebarConfig { use_symbolic_icons: symbolic, ..self }
    }
}

/// The sections in order: Places when shown, the custom sections, then an empty
/// Devices section when shown. Bookmarks are loaded later and add no section here.
pub fn build_sections(config: &FilemanSidebarConfig, places: &SidebarSection) -> (r: Vec<SidebarSection>)
    ensures
        sections_view(r@) == (if config.show_places {
            seq![section_view(*places)]
        } else {
            seq![]
        }) + sections_view(config.custom_sections@) + (if config.show_devices {
            seq![(("Devices"@), Seq::<ItemModel>::empty())]
        } else {
            seq![]
        }),
{
    let mut out: Vec<SidebarSection> = Vec::new();
    if config.show_places {
        out.push(places.duplicate());
    }
    let ghost head = sections_view(out@);
    let n = config.custom_sections.len();
    let mut i: usize = 0;
    while i < n
        invariant
            n == config.custom_sections@.len(),
            0 <= i <= n,
            sections_view(out@) == head + sections_view(config.custom_sections@).take(i as int),
        decreases n - i,
    {
        let ghost prev = out@;
        let copy = config.custom_sections[i].duplicate();
        out.push(copy);
        assert(out@ == prev.push(copy));
        assert(sections_view(out@) =~= sections_view(prev).push(section_view(copy)));
        assert(sections_view(out@) =~= head + sections_view(config.custom_sections@).take(i + 1));
        i = i + 1;
    }
    assert(sections_view(config.custom_sections@).take(n as int) =~= sections_view(config.custom_sections@));
    let ghost mid = sections_view(out@);
    if config.show_devices {
        out.push(SidebarSection { title: String::from_str("Devices"), items: Vec::new() });
        assert(items_view(Seq::<SidebarItem>::empty()) =~= Seq::<ItemModel>::empty());
        assert(sections_view(out@) =~= mid + seq![(("Devices"@), Seq::<ItemModel>::empty())]);
    } else {
        assert(sections_view(out@) =~= mid + Seq::empty());
    }
    if config.show_places {
        assert(head =~= seq![section_view(*places)]);
    } else {
        assert(head =~= Seq::empty());
    }
    out
}

} // verus!
