//! What the windows of the program show: their titles and addresses.

use crate::backend::BACKEND_HOST;
use crate::text::{
    contains, decimal, i64_to_string, optional_chars, spec_contains, str_eq,
};
use vstd::prelude::*;

verus! {

/// The pages that a window can show, each with its title.
pub fn page_title_map() -> (r: Vec<(&'static str, &'static str)>)
    ensures
        r@.len() == 3,
        r@[0].0@ == "data"@ && r@[0].1@ == "Data"@,
        r@[1].0@ == "settings"@ && r@[1].1@ == "Settings"@,
        r@[2].0@ == "notification"@ && r@[2].1@ == "Notification"@,
{
    let mut pages: Vec<(&'static str, &'static str)> = Vec::new();
    pages.push(("data", "Data"));
    pages.push(("settings", "Settings"));
    pages.push(("notification", "Notification"));
    pages
}

/// The title of a page, where the page is one that a window can show.
pub open spec fn spec_page_title(page: Seq<char>) -> Option<Seq<char>> {
    if page == "data"@ {
        Some("Data"@)
    } else if page == "settings"@ {
        Some("Settings"@)
    } else if page == "notification"@ {
        Some("Notification"@)
    } else {
        None
    }
}

/// The title of a window that shows a page; `None` for a page that no window shows.
pub fn window_title(page: &str) -> (r: Option<String>)
    ensures
        (match r {
            Some(title) => Some(title@),
            None => None,
        }) == (match spec_page_title(page@) {
            Some(title) => Some(title + " | System Bridge"@),
            None => None,
        }),
{
    let pages = page_title_map();
    let mut i: usize = 0;
    while i < pages.len()
        invariant
            i <= pages.len(),
            pages@.len() == 3,
            pages@[0].0@ == "data"@ && pages@[0].1@ == "Data"@,
            pages@[1].0@ == "settings"@ && pages@[1].1@ == "Settings"@,
            pages@[2].0@ == "notification"@ && pages@[2].1@ == "Notification"@,
            forall|j: int| 0 <= j < i ==> (#[trigger] pages@[j]).0@ != page@,
        decreases pages.len() - i,
    {
        if str_eq(pages[i].0, page) {
            proof {
                reveal_strlit("data");
                reveal_strlit("settings");
                reveal_strlit("notification");
                assert("data"@.len() == 4 && "settings"@.len() == 8 && "notification"@.len() == 12);
            }
            let mut title = pages[i].1.to_owned();
            title.append(" | System Bridge");
            return Some(title);
        }
        i = i + 1;
    }
    None
}

/// The label of the window that shows a page: the notification has a window of its
/// own, and every other page is shown in the main window.
pub open spec fn spec_window_label(page: Seq<char>) -> Seq<char> {
    if page == "notification"@ {
        "notification"@
    } else {
        "main"@
    }
}

/// The label of the window that shows a page.
pub fn window_label(page: &str) -> (r: &'static str)
    ensures
        r@ == spec_window_label(page@),
{
    if str_eq(page, "notification") {
        "notification"
    } else {
        "main"
    }
}

/// Whether a page that a window has loaded asks for the window to be closed: its
/// address holds `close.window`.
pub fn asks_to_close(address: &str) -> (r: bool)
    ensures
        r == spec_contains(address@, "close.window"@),
{
    contains(address, "close.window")
}

/// The address that a window loads for a page.
pub open spec fn spec_window_url(
    port: i64,
    page: Seq<char>,
    token: Seq<char>,
    query_additional: Option<Seq<char>>,
) -> Seq<char> {
    "http://"@ + BACKEND_HOST@ + ":"@ + decimal(port as int) + "/app/"@ + page + ".html?apiPort="@
        + decimal(port as int) + "&token="@ + token + (match query_additional {
        Some(query) => query,
        None => Seq::empty(),
    })
}

/// The address that a window loads for a page: the page of the worker's web
/// application, with the port and the token of the API, and whatever else the caller
/// wants in the query.
pub fn window_url(port: i64, page: &str, token: &str, query_additional: Option<&str>) -> (r: String)
    ensures
        r@ == spec_window_url(port, page@, token@, optional_chars(query_additional)),
{
    let digits = i64_to_string(port);
    let mut url = "http://".to_owned();
    url.append(BACKEND_HOST);
    url.append(":");
    url.append(digits.as_str());
    url.append("/app/");
    url.append(page);
    url.append(".html?apiPort=");
    url.append(digits.as_str());
    url.append("&token=");
    url.append(token);
    match query_additional {
        Some(query) => {
            url.append(query);
        },
        None => {
            assert(url@ + Seq::<char>::empty() =~= url@);
        },
    }
    url
}

} // verus!
