//! The pages of the navigation drawer: which are listed, and the name,
//! description and icon of each.
use vstd::prelude::*;

verus! {

/// A page the navigation drawer leads to.
#[derive(Clone, Copy, Debug, PartialEq, Eq, Structural)]
pub enum PageId {
    Music,
    Videos,
    Photos,
    Podcasts,
    Playlists,
    PlaylistDetail,
    Settings,
    Radio,
}

/// The pages listed in the drawer, in order; the detail of a playlist is
/// reached from its playlist, not listed.
pub open spec fn listed_pages() -> Seq<PageId> {
    seq![
        PageId::Music,
        PageId::Videos,
        PageId::Photos,
        PageId::Podcasts,
        PageId::Playlists,
        PageId::Radio,
        PageId::Settings,
    ]
}

/// The name of each page.
pub open spec fn page_label(p: PageId) -> Seq<char> {
    match p {
        PageId::Music => "Music"@,
        PageId::Videos => "Videos"@,
        PageId::Photos => "Photos"@,
        PageId::Podcasts => "Podcasts"@,
        PageId::Playlists => "Playlists"@,
        PageId::PlaylistDetail => "Playlist Detail"@,
        PageId::Settings => "Settings"@,
        PageId::Radio => "Radio"@,
    }
}

impl PageId {
    /// The pages listed in the drawer.
    pub fn all() -> (r: [PageId; 7])
        ensures
            r@ == listed_pages(),
    {
        let r = [
            PageId::Music,
            PageId::Videos,
            PageId::Photos,
            PageId::Podcasts,
            PageId::Playlists,
            PageId::Radio,
            PageId::Settings,
        ];
        assert(r@ =~= listed_pages());
        r
    }

    /// The page's name.
    pub fn label(self) -> (r: &'static str)
        ensures
            r@ == page_label(self),
    {
        match self {
            PageId::Music => "Music",
            PageId::Videos => "Videos",
            PageId::Photos => "Photos",
            PageId::Podcasts => "Podcasts",
            PageId::Playlists => "Playlists",
            PageId::PlaylistDetail => "Playlist Detail",
            PageId::Settings => "Settings",
            PageId::Radio => "Radio",
        }
    }

    /// The page's description.
    pub fn body(self) -> (r: &'static str)
        ensures
            r@ == match self {
                PageId::Music => "A dummy music workspace with a future playlist experience."@,
                PageId::Videos => "A dummy video view for browsing clips and playlists."@,
                PageId::Photos => "A dummy photo gallery for organizing recent captures."@,
                PageId::Podcasts => "A dummy podcast feed ready for episode browsing."@,
                PageId::Playlists => "A dummy playlist page for your next listening session."@,
                PageId::PlaylistDetail => "Songs in a selected playlist."@,
                PageId::Settings => "Personalize your workspace, playback, and account preferences."@,
                PageId::Radio => "Tune your favorite station presets and listening modes."@,
            },
    {
        match self {
            PageId::Music => "A dummy music workspace with a future playlist experience.",
            PageId::Videos => "A dummy video view for browsing clips and playlists.",
            PageId::Photos => "A dummy photo gallery for organizing recent captures.",
            PageId::Podcasts => "A dummy podcast feed ready for episode browsing.",
            PageId::Playlists => "A dummy playlist page for your next listening session.",
            PageId::PlaylistDetail => "Songs in a selected playlist.",
            PageId::Settings => "Personalize your workspace, playback, and account preferences.",
            PageId::Radio => "Tune your favorite station presets and listening modes.",
        }
    }

    /// The name of the page's icon in the feather set.
    pub fn icon(self) -> (r: &'static str)
        ensures
            r@ == match self {
                PageId::Music => "music"@,
                PageId::Videos => "play"@,
                PageId::Photos => "image"@,
                PageId::Podcasts => "radio"@,
                PageId::Playlists => "list"@,
                PageId::PlaylistDetail => "disc"@,
                PageId::Settings => "settings"@,
                PageId::Radio => "radio"@,
            },
    {
        match self {
            PageId::Music => "music",
            PageId::Videos => "play",
            PageId::Photos => "image",
            PageId::Podcasts => "radio",
            PageId::Playlists => "list",
            PageId::PlaylistDetail => "disc",
            PageId::Settings => "settings",
            PageId::Radio => "radio",
        }
    }
}

/// Every page but the detail of a playlist is listed, each once.
pub proof fn lemma_listed_pages(p: PageId)
    ensures
        listed_pages().contains(p) <==> p != PageId::PlaylistDetail,
        listed_pages().no_duplicates(),
{
    let s = listed_pages();
    if p != PageId::PlaylistDetail {
        let k: int = match p {
            PageId::Music => 0,
            PageId::Videos => 1,
            PageId::Photos => 2,
            PageId::Podcasts => 3,
            PageId::Playlists => 4,
            PageId::Radio => 5,
            _ => 6,
        };
        assert(s[k] == p);
    }
}

} // verus!
