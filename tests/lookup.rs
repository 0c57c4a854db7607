use resume_svc::intel::{health, lookup_company, LookupReq, LookupResp};
use resume_svc::skeleton::root;

fn req(domain: &str, role_family: Option<&str>) -> LookupReq {
    LookupReq {
        domain: domain.to_string(),
        role_family: role_family.map(|r| r.to_string()),
    }
}

fn assert_stub_fields(r: &LookupResp) {
    assert_eq!(r.products, vec!["ExampleProduct".to_string()]);
    assert_eq!(r.people.len(), 1);
    assert_eq!(r.people[0].name, "Jane Doe");
    assert_eq!(r.people[0].title, "Hiring Manager");
    assert_eq!(r.people[0].linkedin, "https://linkedin.com/in/janedoe");
    assert_eq!(r.signals, vec!["Recent funding".to_string(), "Hiring push".to_string()]);
    assert_eq!(r.sources, vec!["https://example.com".to_string()]);
}

#[test]
fn lookup_without_role_family_defaults_to_general() {
    let r = lookup_company(req("acme.com", None));
    assert_eq!(r.domain, "acme.com");
    assert_eq!(r.role_family, "General");
    assert_stub_fields(&r);
}

#[test]
fn lookup_with_role_family_echoes_it() {
    let r = lookup_company(req("acme.com", Some("Engineering")));
    assert_eq!(r.domain, "acme.com");
    assert_eq!(r.role_family, "Engineering");
    assert_stub_fields(&r);
}

#[test]
fn lookup_echoes_domain_unchanged() {
    for d in ["ACME.com", "", "  spaced.example.org ", "ünïcode.de"] {
        let r = lookup_company(req(d, None));
        assert_eq!(r.domain, d);
    }
}

#[test]
fn lookup_keeps_empty_and_explicit_general_role_family() {
    assert_eq!(lookup_company(req("a.io", Some(""))).role_family, "");
    assert_eq!(lookup_company(req("a.io", Some("General"))).role_family, "General");
}

#[test]
fn lookup_fixed_fields_do_not_depend_on_request() {
    let a = lookup_company(req("acme.com", None));
    let b = lookup_company(req("other.net", Some("Sales")));
    assert_eq!(a.products, b.products);
    assert_eq!(a.signals, b.signals);
    assert_eq!(a.sources, b.sources);
    assert_eq!(a.people.len(), b.people.len());
    assert_eq!(a.people[0].name, b.people[0].name);
    assert_eq!(a.people[0].title, b.people[0].title);
    assert_eq!(a.people[0].linkedin, b.people[0].linkedin);
    assert_stub_fields(&b);
}

#[test]
fn healthz_answers_ok_before_and_after_lookups() {
    assert_eq!(health(), "ok");
    let _ = lookup_company(req("acme.com", Some("Engineering")));
    assert_eq!(health(), "ok");
}

#[test]
fn skeleton_root_answers_ok() {
    assert_eq!(root(), "ok");
}
