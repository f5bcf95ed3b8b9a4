use overture::config::Config;
use overture::project::Project;
use overture::server::Server;

#[test]
fn test_default_config_values() {
    let c = Config::default();
    assert_eq!(c.title, "Default Title");
    assert_eq!(c.description, "Default Description");
    assert_eq!(c.url, "https://example.com");
    assert_eq!(c.header.title, "Default Header Title");
    assert_eq!(c.header.links.len(), 3);
    assert_eq!(c.header.links[0].name, "Home");
    assert_eq!(c.header.links[0].url, "/");
    assert_eq!(c.header.links[2].name, "Articles");
    assert_eq!(c.footer.name, "John Akiyama");
    assert_eq!(c.rss.title, "Default RSS Title");
    assert_eq!(c.rss.external_rss_links.len(), 2);
    assert_eq!(c.rss.external_rss_links[0], "https://zenn.dev/ucpr/feed?include_scraps=1");
    assert_eq!(c.rss.external_rss_links[1], "https://ucpr.hatenablog.com/rss");
    assert_eq!(c.profile.work_experiences.len(), 1);
    assert!(c.profile.work_experiences[0].active);
    assert_eq!(c.profile.certificates.len(), 1);
    assert!(!c.profile.certificates[0].is_expired);
    assert_eq!(c.google_analytics.unwrap().tracking_id, "UA-123456789-0");
}

#[test]
fn test_project_new() {
    let p = Project::new("/tmp/site".to_string());
    assert_eq!(p.root, "/tmp/site");
}

#[test]
fn test_server_new() {
    let s = Server::new("0.0.0.0".to_string(), 8080);
    assert_eq!(s.address, "0.0.0.0");
    assert_eq!(s.port, 8080);
}
