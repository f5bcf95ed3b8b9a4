//! The site configuration: one value constructed per build and passed
//! explicitly into every component that needs it. Reading and writing the
//! configuration file is I/O and lives outside the library; the types and
//! the default configuration a fresh project is scaffolded with live here.

use vstd::prelude::*;

verus! {

/// One navigation link of the site header.
pub struct HeaderLink {
    pub name: String,
    pub url: String,
}

/// The site header: its title and its navigation links.
pub struct Header {
    pub title: String,
    pub links: Vec<HeaderLink>,
}

/// The site footer.
pub struct Footer {
    pub name: String,
}

/// The syndication feed settings: the feed's own channel fields and the
/// external feeds the site aggregates.
pub struct Rss {
    pub external_rss_links: Vec<String>,
    pub title: String,
    pub url: String,
    pub description: String,
}

/// One project within a work experience entry.
pub struct WorkExperienceProject {
    pub name: String,
    pub period: String,
    pub description: String,
    pub tags: Vec<String>,
}

/// One work experience entry of the profile.
pub struct WorkExperience {
    pub company: String,
    pub active: bool,
    pub projects: Vec<WorkExperienceProject>,
}

/// One certificate entry of the profile.
pub struct Certificate {
    pub name: String,
    pub date: String,
    pub description: Option<String>,
    pub is_expired: bool,
    pub url: Option<String>,
}

/// The analytics settings.
pub struct GoogleAnalytics {
    pub tracking_id: String,
}

/// The author profile shown on the site.
pub struct Profile {
    pub name: String,
    pub icon_url: String,
    pub introduction: String,
    pub work_experiences: Vec<WorkExperience>,
    pub certificates: Vec<Certificate>,
    pub spotify_playlist_id: Option<String>,
}

/// The whole site configuration.
pub struct Config {
    pub title: String,
    pub description: String,
    pub url: String,
    pub profile: Profile,
    pub header: Header,
    pub footer: Footer,
    pub rss: Rss,
    pub google_analytics: Option<GoogleAnalytics>,
}

impl Default for Config {
    /// The configuration a newly scaffolded project starts from.
    fn default() -> (r: Config)
        ensures
            r.title@ == "Default Title"@,
            r.description@ == "Default Description"@,
            r.url@ == "https://example.com"@,
            r.header.title@ == "Default Header Title"@,
            r.header.links@.len() == 3,
            r.header.links@[0].name@ == "Home"@ && r.header.links@[0].url@ == "/"@,
            r.header.links@[1].name@ == "About"@ && r.header.links@[1].url@ == "/about"@,
            r.header.links@[2].name@ == "Articles"@ && r.header.links@[2].url@ == "/articles"@,
            r.profile.name@ == "Default Name"@,
            r.profile.icon_url@ == "https://via.placeholder.com/200"@,
            r.profile.spotify_playlist_id matches Some(p) && p@ == "3RktWZ6EsWwBXIgnJOm9EM"@,
            r.profile.work_experiences@.len() == 1,
            r.profile.work_experiences@[0].company@ == "Default Company"@,
            r.profile.work_experiences@[0].active,
            r.profile.work_experiences@[0].projects@.len() == 1,
            r.profile.work_experiences@[0].projects@[0].name@ == "Default Project"@,
            r.profile.work_experiences@[0].projects@[0].period@ == "2020/01 - 2020/12"@,
            r.profile.work_experiences@[0].projects@[0].tags@.len() == 1,
            r.profile.work_experiences@[0].projects@[0].tags@[0]@ == "Default Tag"@,
            r.profile.certificates@.len() == 1,
            r.profile.certificates@[0].name@ == "Default Certificate"@,
            r.profile.certificates@[0].date@ == "2020/12"@,
            r.profile.certificates@[0].description matches Some(d) && d@ == "Default Description"@,
            !r.profile.certificates@[0].is_expired,
            r.profile.certificates@[0].url matches Some(u) && u@ == "https://example.com"@,
            r.footer.name@ == "John Akiyama"@,
            r.rss.title@ == "Default RSS Title"@,
            r.rss.description@ == "Default RSS Description"@,
            r.rss.url@ == "https://example.com/rss"@,
            r.rss.external_rss_links@.len() == 2,
            r.rss.external_rss_links@[0]@ == "https://zenn.dev/ucpr/feed?include_scraps=1"@,
            r.rss.external_rss_links@[1]@ == "https://ucpr.hatenablog.com/rss"@,
            r.google_analytics matches Some(g) && g.tracking_id@ == "UA-123456789-0"@,
    {
        let mut links: Vec<HeaderLink> = Vec::new();
        links.push(HeaderLink { name: String::from_str("Home"), url: String::from_str("/") });
        links.push(HeaderLink { name: String::from_str("About"), url: String::from_str("/about") });
        links.push(
            HeaderLink { name: String::from_str("Articles"), url: String::from_str("/articles") },
        );
        let mut tags: Vec<String> = Vec::new();
        tags.push(String::from_str("Default Tag"));
        let mut projects: Vec<WorkExperienceProject> = Vec::new();
        projects.push(
            WorkExperienceProject {
                name: String::from_str("Default Project"),
                period: String::from_str("2020/01 - 2020/12"),
                description: String::from_str("Default Project Description"),
                tags,
            },
        );
        let mut work_experiences: Vec<WorkExperience> = Vec::new();
        work_experiences.push(
            WorkExperience { company: String::from_str("Default Company"), active: true, projects },
        );
        let mut certificates: Vec<Certificate> = Vec::new();
        certificates.push(
            Certificate {
                name: String::from_str("Default Certificate"),
                date: String::from_str("2020/12"),
                description: Some(String::from_str("Default Description")),
                is_expired: false,
                url: Some(String::from_str("https://example.com")),
            },
        );
        let mut external_rss_links: Vec<String> = Vec::new();
        external_rss_links.push(String::from_str("https://zenn.dev/ucpr/feed?include_scraps=1"));
        external_rss_links.push(String::from_str("https://ucpr.hatenablog.com/rss"));
        Config {
            title: String::from_str("Default Title"),
            description: String::from_str("Default Description"),
            url: String::from_str("https://example.com"),
            profile: Profile {
                name: String::from_str("Default Name"),
                icon_url: String::from_str("https://via.placeholder.com/200"),
                introduction: String::from_str("A default introduction."),
                work_experiences,
                certificates,
                spotify_playlist_id: Some(String::from_str("3RktWZ6EsWwBXIgnJOm9EM")),
            },
            header: Header { title: String::from_str("Default Header Title"), links },
            footer: Footer { name: String::from_str("John Akiyama") },
            rss: Rss {
                title: String::from_str("Default RSS Title"),
                description: String::from_str("Default RSS Description"),
                url: String::from_str("https://example.com/rss"),
                external_rss_links,
            },
            google_analytics: Some(
                GoogleAnalytics { tracking_id: String::from_str("UA-123456789-0") },
            ),
        }
    }
}

} // verus!
