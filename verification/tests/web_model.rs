use argus::decimal::u16_decimal;
use argus::health_check::HealthApi;
use argus::pages::{
    admin_page, base_context_for_year, home_page, is_htmx_request, make_base_context,
    page_response, status_page, BaseTemplateContext, HomePage, StatusPage,
};

fn assert_standard_nav(c: &BaseTemplateContext) {
    assert_eq!(c.sidebar_items.len(), 2);
    assert_eq!(c.sidebar_items[0].label, "Home");
    assert_eq!(c.sidebar_items[0].href, "/admin/pages/home");
    assert_eq!(c.sidebar_items[0].icon, "mdi-home");
    assert_eq!(c.sidebar_items[1].label, "Status");
    assert_eq!(c.sidebar_items[1].href, "/admin/pages/status");
    assert_eq!(c.sidebar_items[1].icon, "mdi-desktop-mac");
    assert_eq!(c.navbar_items.len(), 2);
    assert_eq!(c.navbar_items[0].label, "Home");
    assert_eq!(c.navbar_items[0].href, "/admin/pages/home");
    assert_eq!(c.navbar_items[0].icon, "mdi-home");
    assert_eq!(c.navbar_items[1].label, "Status");
    assert_eq!(c.navbar_items[1].href, "/admin/pages/status");
    assert_eq!(c.navbar_items[1].icon, "mdi-desktop-mac");
}

#[test]
fn liveness_answers_ok_right_after_startup() {
    let api = HealthApi;
    assert_eq!(api.healthz(), "ok");
    assert_eq!(api.kaithheathcheck(), "ok");
    assert_eq!(api.kaithhealthcheck(), "ok");
}

#[test]
fn base_context_holds_the_standard_nav_and_year() {
    let c = base_context_for_year(2001);
    assert_standard_nav(&c);
    assert_eq!(c.year, 2001);

    // The clock-reading variant keeps the same navigation, and its
    // year stays within the calendar's representable range.
    let now = make_base_context();
    assert_standard_nav(&now);
    assert!((-262143..=262142).contains(&now.year));
}

#[test]
fn htmx_header_must_be_present_and_true() {
    assert!(is_htmx_request(Some("true")));
    assert!(!is_htmx_request(Some("false")));
    assert!(!is_htmx_request(Some("TRUE")));
    assert!(!is_htmx_request(None));
}

#[test]
fn admin_page_carries_the_standard_nav() {
    let t = admin_page();
    assert_standard_nav(&t.base);
}

#[test]
fn home_page_splits_on_htmx() {
    match home_page(true) {
        HomePage::Partial(_) => {}
        HomePage::Full(_) => panic!("dashboard requests get the content alone"),
    }
    match home_page(false) {
        HomePage::Full(t) => assert_standard_nav(&t._base),
        HomePage::Partial(_) => panic!("direct requests get the full page"),
    }
}

#[test]
fn status_page_reports_ok_for_argus_either_way() {
    match status_page(true) {
        StatusPage::Partial(t) => {
            assert_eq!(t.heartbeat, "OK");
            assert_eq!(t.service, "Argus");
        }
        StatusPage::Full(_) => panic!("dashboard requests get the content alone"),
    }
    match status_page(false) {
        StatusPage::Full(t) => {
            assert_standard_nav(&t._base);
            assert_eq!(t.heartbeat, "OK");
            assert_eq!(t.service, "Argus");
        }
        StatusPage::Partial(_) => panic!("direct requests get the full page"),
    }
}

#[test]
fn page_response_wraps_rendered_html() {
    let r = page_response(Ok("<p>hi</p>".to_string()));
    assert_eq!(r.status, 200);
    assert_eq!(r.content_type, Some("text/html; charset=utf-8"));
    assert_eq!(r.body, "<p>hi</p>");
}

#[test]
fn page_response_reports_render_errors() {
    let r = page_response(Err("missing block".to_string()));
    assert_eq!(r.status, 500);
    assert_eq!(r.content_type, None);
    assert_eq!(r.body, "Template error: missing block");
}

#[test]
fn decimal_rendering_matches_the_usual_notation() {
    assert_eq!(u16_decimal(0), "0");
    assert_eq!(u16_decimal(7), "7");
    assert_eq!(u16_decimal(10), "10");
    assert_eq!(u16_decimal(8080), "8080");
    assert_eq!(u16_decimal(65535), "65535");
}
