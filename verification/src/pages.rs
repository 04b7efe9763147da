//! The admin dashboard's server-side page model: static navigation
//! lists, the shared template context, the template values each page
//! handler fills in, and the decisions those handlers make (partial
//! versus full page, success versus error response).
//!
//! Rendering the template values to HTML is the templating
//! collaborator's job; this module only decides what is rendered.

use chrono::Datelike;
use vstd::prelude::*;
use vstd::string::StringExecFns;

verus! {

/// One entry of the admin sidebar.
pub struct SidebarItem {
    pub label: &'static str,
    pub href: &'static str,
    pub icon: &'static str,
}

/// One entry of the admin navbar.
pub struct NavbarItem {
    pub label: &'static str,
    pub href: &'static str,
    pub icon: &'static str,
}

/// The context shared by every admin page: the current year for the
/// footer and the two navigation lists.
pub struct BaseTemplateContext {
    pub year: i32,
    pub sidebar_items: Vec<SidebarItem>,
    pub navbar_items: Vec<NavbarItem>,
}

/// The fixed navigation of the admin area: a Home entry and a Status
/// entry, in that order, in both the sidebar and the navbar.
pub open spec fn standard_nav(c: BaseTemplateContext) -> bool {
    &&& c.sidebar_items@.len() == 2
    &&& c.sidebar_items@[0].label@ == "Home"@
    &&& c.sidebar_items@[0].href@ == "/admin/pages/home"@
    &&& c.sidebar_items@[0].icon@ == "mdi-home"@
    &&& c.sidebar_items@[1].label@ == "Status"@
    &&& c.sidebar_items@[1].href@ == "/admin/pages/status"@
    &&& c.sidebar_items@[1].icon@ == "mdi-desktop-mac"@
    &&& c.navbar_items@.len() == 2
    &&& c.navbar_items@[0].label@ == "Home"@
    &&& c.navbar_items@[0].href@ == "/admin/pages/home"@
    &&& c.navbar_items@[0].icon@ == "mdi-home"@
    &&& c.navbar_items@[1].label@ == "Status"@
    &&& c.navbar_items@[1].href@ == "/admin/pages/status"@
    &&& c.navbar_items@[1].icon@ == "mdi-desktop-mac"@
}

/// Builds the shared context for a given footer year.
pub fn base_context_for_year(year: i32) -> (c: BaseTemplateContext)
    ensures
        standard_nav(c),
        c.year == year,
{
    let mut sidebar_items: Vec<SidebarItem> = Vec::new();
    sidebar_items.push(
        SidebarItem { label: "Home", href: "/admin/pages/home", icon: "mdi-home" },
    );
    sidebar_items.push(
        SidebarItem { label: "Status", href: "/admin/pages/status", icon: "mdi-desktop-mac" },
    );
    let mut navbar_items: Vec<NavbarItem> = Vec::new();
    navbar_items.push(NavbarItem { label: "Home", href: "/admin/pages/home", icon: "mdi-home" });
    navbar_items.push(
        NavbarItem { label: "Status", href: "/admin/pages/status", icon: "mdi-desktop-mac" },
    );
    BaseTemplateContext { year, sidebar_items, navbar_items }
}

/// Relies on chrono's `DateTime::from_timestamp` and `Datelike::year`
/// for the calendar year of the present moment, read from the system
/// clock as whole seconds since the Unix epoch. Every branch of the
/// body is total: `None` comes back when the clock stands before the
/// epoch or past chrono's last representable date, and any year handed
/// back lies within chrono's own date bounds.
#[verifier::external_body]
fn current_year() -> (y: Option<i32>)
    ensures
        y matches Some(v) ==> -262143 <= v <= 262142,
{
    let since_epoch = std::time::SystemTime::now().duration_since(std::time::UNIX_EPOCH);
    match since_epoch {
        Ok(elapsed) => match i64::try_from(elapsed.as_secs()) {
            Ok(secs) => chrono::DateTime::from_timestamp(secs, 0).map(|t| t.year()),
            Err(_) => None,
        },
        Err(_) => None,
    }
}

/// Builds the shared context for the moment of the request: the fixed
/// navigation, with the footer year read from the system clock, or the
/// epoch's year when the clock cannot be read; either way the year
/// stays within chrono's date bounds.
pub fn make_base_context() -> (c: BaseTemplateContext)
    ensures
        standard_nav(c),
        -262143 <= c.year <= 262142,
{
    let year: i32 = match current_year() {
        Some(y) => y,
        None => 1970,
    };
    base_context_for_year(year)
}

/// Whether a request announced itself as coming from the dashboard's
/// own JavaScript, given the value of its `HX-Request` header: exactly
/// when that header was present and read `true`.
pub fn is_htmx_request(header: Option<&str>) -> (r: bool)
    ensures
        r == (header matches Some(h) && h@ == "true"@),
{
    match header {
        Some(h) => {
            let hv: String = h.to_owned();
            let tv: String = "true".to_owned();
            hv == tv
        },
        None => false,
    }
}

/// The admin layout page.
pub struct AdminTmpl {
    pub base: BaseTemplateContext,
}

/// The home page with the full layout around it.
pub struct HomeTmpl {
    pub _base: BaseTemplateContext,
}

/// The home page's content alone.
pub struct HomePartialTmpl {}

/// The status page with the full layout around it.
pub struct StatusTmpl {
    pub _base: BaseTemplateContext,
    pub heartbeat: String,
    pub service: String,
}

/// The status page's content alone.
pub struct StatusPartialTmpl {
    pub heartbeat: String,
    pub service: String,
}

/// What the home handler renders: the content alone, or the full page.
pub enum HomePage {
    Full(HomeTmpl),
    Partial(HomePartialTmpl),
}

/// What the status handler renders: the content alone, or the full
/// page.
pub enum StatusPage {
    Full(StatusTmpl),
    Partial(StatusPartialTmpl),
}

/// The admin layout handler's template value: the layout over the
/// standard navigation.
pub fn admin_page() -> (t: AdminTmpl)
    ensures
        standard_nav(t.base),
{
    AdminTmpl { base: make_base_context() }
}

/// The home handler's decision: content alone for the dashboard's own
/// requests, the full page with the standard navigation otherwise.
pub fn home_page(htmx: bool) -> (p: HomePage)
    ensures
        htmx ==> p is Partial,
        !htmx ==> (p matches HomePage::Full(t) && standard_nav(t._base)),
{
    if htmx {
        HomePage::Partial(HomePartialTmpl {})
    } else {
        HomePage::Full(HomeTmpl { _base: make_base_context() })
    }
}

/// The status handler's decision: as for the home page, and either way
/// the page reports the heartbeat as `OK` for the `Argus` service.
pub fn status_page(htmx: bool) -> (p: StatusPage)
    ensures
        htmx ==> (p matches StatusPage::Partial(t) && t.heartbeat@ == "OK"@ && t.service@
            == "Argus"@),
        !htmx ==> (p matches StatusPage::Full(t) && standard_nav(t._base) && t.heartbeat@ == "OK"@
            && t.service@ == "Argus"@),
{
    let heartbeat = "OK".to_owned();
    let service = "Argus".to_owned();
    if htmx {
        StatusPage::Partial(StatusPartialTmpl { heartbeat, service })
    } else {
        StatusPage::Full(StatusTmpl { _base: make_base_context(), heartbeat, service })
    }
}

/// The HTTP response a page handler settles on, as plain values: a
/// status code, an optional content type, and the body.
pub struct PageResponse {
    pub status: u16,
    pub content_type: Option<&'static str>,
    pub body: String,
}

/// How a handler answers once the template collaborator has tried to
/// render: the HTML under OK with an HTML content type, or the
/// rendering error under an internal server error.
pub fn page_response(render: Result<String, String>) -> (r: PageResponse)
    ensures
        render matches Ok(html) ==> r.status == 200 && (r.content_type matches Some(ct) && ct@
            == "text/html; charset=utf-8"@) && r.body@ == html@,
        render matches Err(e) ==> r.status == 500 && r.content_type is None && r.body@
            == "Template error: "@ + e@,
{
    match render {
        Ok(html) => PageResponse {
            status: 200,
            content_type: Some("text/html; charset=utf-8"),
            body: html,
        },
        Err(e) => PageResponse {
            status: 500,
            content_type: None,
            body: "Template error: ".to_owned().concat(e.as_str()),
        },
    }
}

} // verus!
