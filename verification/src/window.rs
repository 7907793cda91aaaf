use crate::text::str_eq;
use vstd::prelude::*;
use vstd::string::StringExecFns;

verus! {

/// The user agent that the web view presents.
pub const USER_AGENT: &'static str = "Mozilla/5.0 (Macintosh; Intel Mac OS X 10_15_7) AppleWebKit/605.1.15 (KHTML, like Gecko) Version/17.1 Safari/605.1.15";

/// The content security policy sent with the web view's requests.
pub const CONTENT_SECURITY_POLICY: &'static str = "default-src * 'unsafe-inline' 'unsafe-eval' data: blob:; img-src * data: blob:; media-src * data: blob:; script-src * 'unsafe-inline' 'unsafe-eval' data: blob:; style-src * 'unsafe-inline' data: blob:; font-src * data: blob:; connect-src * wss: ws:; frame-src * data: blob:;";

/// What a click on a menu item asks of the window.
#[derive(Debug, Clone, Copy, PartialEq, Eq, Structural)]
pub enum MenuAction {
    /// Reload the web view.
    Reload,
    /// Open the web view's developer tools.
    OpenDevtools,
    /// Nothing: the item is handled elsewhere or not at all.
    Ignore,
}

/// An event that the window's event loop receives, as far as the loop tells them apart.
#[derive(Debug, Clone, Copy, PartialEq, Eq, Structural)]
pub enum LoopEvent {
    /// The user asked to close the window.
    CloseRequested,
    /// Any other event of the window.
    OtherWindowEvent,
    /// An event sent by the application itself: a menu click, an IPC request or a
    /// fetch's outcome.
    UserEvent,
    /// Anything else.
    Other,
}

/// What the event loop does with an event.
#[derive(Debug, Clone, Copy, PartialEq, Eq, Structural)]
pub enum LoopAction {
    /// Stop the loop and leave.
    Exit,
    /// Handle the application's event, then wait for the next one.
    HandleUserEvent,
    /// Wait for the next event.
    Wait,
}

/// Closing the window ends the loop; the application's own events are handled; the
/// loop waits after anything else.
pub open spec fn loop_action_for(event: LoopEvent) -> LoopAction {
    match event {
        LoopEvent::CloseRequested => LoopAction::Exit,
        LoopEvent::UserEvent => LoopAction::HandleUserEvent,
        _ => LoopAction::Wait,
    }
}

/// The loop ends exactly when the window is asked to close, and handles exactly the
/// application's own events; it waits after every other event.
pub proof fn lemma_loop_exits_only_on_close(event: LoopEvent)
    ensures
        (loop_action_for(event) == LoopAction::Exit) == (event == LoopEvent::CloseRequested),
        (loop_action_for(event) == LoopAction::HandleUserEvent) == (event == LoopEvent::UserEvent),
        (loop_action_for(event) == LoopAction::Wait) == (event != LoopEvent::CloseRequested
            && event != LoopEvent::UserEvent),
{
}

/// What the event loop does with an event.
pub fn loop_action(event: LoopEvent) -> (action: LoopAction)
    ensures
        action == loop_action_for(event),
        (action == LoopAction::Exit) == (event == LoopEvent::CloseRequested),
        (action == LoopAction::HandleUserEvent) == (event == LoopEvent::UserEvent),
{
    proof {
        lemma_loop_exits_only_on_close(event);
    }
    match event {
        LoopEvent::CloseRequested => LoopAction::Exit,
        LoopEvent::UserEvent => LoopAction::HandleUserEvent,
        _ => LoopAction::Wait,
    }
}

/// The text of an optional string slice.
pub open spec fn opt_str_text(s: Option<&str>) -> Option<Seq<char>> {
    match s {
        Some(t) => Some(t@),
        None => None,
    }
}

/// Whether a known menu item has the clicked item's id.
pub open spec fn is_item(item: Option<Seq<char>>, clicked: Seq<char>) -> bool {
    item matches Some(id) && id == clicked
}

/// A click on the reload item reloads; one on the developer tools item opens them;
/// the reload item is checked first.
pub open spec fn menu_action_for(
    clicked: Seq<char>,
    reload: Option<Seq<char>>,
    devtools: Option<Seq<char>>,
) -> MenuAction {
    if is_item(reload, clicked) {
        MenuAction::Reload
    } else if is_item(devtools, clicked) {
        MenuAction::OpenDevtools
    } else {
        MenuAction::Ignore
    }
}

fn is_menu_item(item: Option<&str>, clicked: &str) -> (result: bool)
    ensures
        result == is_item(opt_str_text(item), clicked@),
{
    match item {
        Some(id) => str_eq(id, clicked),
        None => false,
    }
}

/// What to do for a click on the menu item `clicked`, given the ids of the reload and
/// developer tools items where the menu has them.
pub fn menu_action(clicked: &str, reload: Option<&str>, devtools: Option<&str>) -> (action: MenuAction)
    ensures
        action == menu_action_for(clicked@, opt_str_text(reload), opt_str_text(devtools)),
        (action == MenuAction::Reload) == (reload matches Some(r) && r@ == clicked@),
        (action == MenuAction::OpenDevtools) == (!(reload matches Some(r) && r@ == clicked@) && (
        devtools matches Some(d) && d@ == clicked@)),
        (action == MenuAction::Ignore) == (!(reload matches Some(r) && r@ == clicked@) && !(
        devtools matches Some(d) && d@ == clicked@)),
{
    proof {
        lemma_menu_action_by_id(clicked@, opt_str_text(reload), opt_str_text(devtools));
    }
    if is_menu_item(reload, clicked) {
        MenuAction::Reload
    } else if is_menu_item(devtools, clicked) {
        MenuAction::OpenDevtools
    } else {
        MenuAction::Ignore
    }
}

/// The script that hands a fetch's outcome back to the page: the request's id, whether
/// the fetch succeeded, and the outcome as JSON.
pub open spec fn fetch_response_text(req_id: Seq<char>, ok: bool, payload_json: Seq<char>) -> Seq<char> {
    "window.__LETO__.handleFetchResponse('"@ + req_id + "', "@ + (if ok {
        "true"@
    } else {
        "false"@
    }) + ", "@ + payload_json + ");"@
}

/// The hand-back script opens with the call and the request's id, and ends with the
/// flag `true` for a successful fetch and `false` for a failed one, then the payload,
/// whatever the payload is.
pub proof fn lemma_fetch_response_flag(req_id: Seq<char>, ok: bool, payload_json: Seq<char>)
    ensures
        ({
            let script = fetch_response_text(req_id, ok, payload_json);
            let tail = (if ok {
                ", true, "@
            } else {
                ", false, "@
            }) + payload_json + ");"@;
            let head = "window.__LETO__.handleFetchResponse('"@ + req_id;
            &&& script.len() == head.len() + 1 + tail.len()
            &&& script.subrange(0, head.len() as int) == head
            &&& script.subrange(script.len() - tail.len(), script.len() as int) == tail
        }),
{
    reveal_strlit("', ");
    reveal_strlit(", ");
    reveal_strlit(", true, ");
    reveal_strlit(", false, ");
    reveal_strlit("true");
    reveal_strlit("false");
    reveal_strlit("'");
    let script = fetch_response_text(req_id, ok, payload_json);
    let flag = if ok {
        "true"@
    } else {
        "false"@
    };
    let ctail = if ok {
        ", true, "@
    } else {
        ", false, "@
    };
    let tail = ctail + payload_json + ");"@;
    let head = "window.__LETO__.handleFetchResponse('"@ + req_id;
    assert(ctail =~= ", "@ + flag + ", "@);
    assert(script =~= head + "'"@ + tail);
    assert(script.subrange(0, head.len() as int) =~= head);
    assert(script.subrange(script.len() - tail.len(), script.len() as int) =~= tail);
}

/// The script that logs, in the page, that a fetch's outcome is being returned.
pub open spec fn fetch_log_text(req_id: Seq<char>) -> Seq<char> {
    "window.__LETO__.logMessage('Fetch response for "@ + req_id + " being returned.');"@
}

/// The script that hands a fetch's outcome back to the page.
pub fn fetch_response_script(req_id: &str, ok: bool, payload_json: &str) -> (script: String)
    ensures
        script@ == fetch_response_text(req_id@, ok, payload_json@),
        ({
            let tail = (if ok {
                ", true, "@
            } else {
                ", false, "@
            }) + payload_json@ + ");"@;
            let head = "window.__LETO__.handleFetchResponse('"@ + req_id@;
            &&& script@.len() == head.len() + 1 + tail.len()
            &&& script@.subrange(0, head.len() as int) == head
            &&& script@.subrange(script@.len() - tail.len(), script@.len() as int) == tail
        }),
{
    proof {
        lemma_fetch_response_flag(req_id@, ok, payload_json@);
    }
    let mut script = String::from_str("window.__LETO__.handleFetchResponse('");
    script.append(req_id);
    script.append("', ");
    if ok {
        script.append("true");
    } else {
        script.append("false");
    }
    script.append(", ");
    script.append(payload_json);
    script.append(");");
    script
}

/// The script that logs that a fetch's outcome is being returned.
pub fn fetch_log_script(req_id: &str) -> (script: String)
    ensures
        script@ == fetch_log_text(req_id@),
        script@ == "window.__LETO__.logMessage('Fetch response for "@ + req_id@
            + " being returned.');"@,
{
    let mut script = String::from_str("window.__LETO__.logMessage('Fetch response for ");
    script.append(req_id);
    script.append(" being returned.');");
    script
}

/// The scripts to evaluate, in order, when a fetch's outcome comes back: first the log
/// message, then the hand-back of the outcome.
pub fn fetch_result_scripts(req_id: &str, ok: bool, payload_json: &str) -> (scripts: Vec<String>)
    ensures
        scripts@.len() == 2,
        scripts@[0]@ == fetch_log_text(req_id@),
        scripts@[1]@ == fetch_response_text(req_id@, ok, payload_json@),
{
    let mut scripts: Vec<String> = Vec::new();
    scripts.push(fetch_log_script(req_id));
    scripts.push(fetch_response_script(req_id, ok, payload_json));
    scripts
}

/// A click reloads exactly when the reload item's id equals the clicked id; it opens
/// the developer tools exactly when the reload item's id does not and the developer
/// tools item's id does; otherwise it does nothing.
pub proof fn lemma_menu_action_by_id(
    clicked: Seq<char>,
    reload: Option<Seq<char>>,
    devtools: Option<Seq<char>>,
)
    ensures
        (menu_action_for(clicked, reload, devtools) == MenuAction::Reload) == (reload == Some(
            clicked,
        )),
        (menu_action_for(clicked, reload, devtools) == MenuAction::OpenDevtools) == (reload
            != Some(clicked) && devtools == Some(clicked)),
        (menu_action_for(clicked, reload, devtools) == MenuAction::Ignore) == (reload != Some(
            clicked,
        ) && devtools != Some(clicked)),
{
}

/// When one item is both the reload and the developer tools item, a click on it
/// reloads.
pub proof fn lemma_reload_checked_first(clicked: Seq<char>, devtools: Option<Seq<char>>)
    ensures
        menu_action_for(clicked, Some(clicked), devtools) == MenuAction::Reload,
{
}

/// A click on an item that is neither the reload nor the developer tools item does
/// nothing.
pub proof fn lemma_other_items_ignored(
    clicked: Seq<char>,
    reload: Option<Seq<char>>,
    devtools: Option<Seq<char>>,
)
    requires
        !is_item(reload, clicked),
        !is_item(devtools, clicked),
    ensures
        menu_action_for(clicked, reload, devtools) == MenuAction::Ignore,
{
}

/// The method of an HTTP request made for the page.
#[derive(Debug, Clone, Copy, PartialEq, Eq, Structural)]
pub enum HttpMethod {
    Get,
    Post,
    Put,
    Delete,
}

/// What `str::to_uppercase` returns for a string: each character replaced by its
/// Unicode uppercase mapping.
pub uninterp spec fn uppercase(s: Seq<char>) -> Seq<char>;

/// Calls std's `str::to_uppercase`. The contract claims only that the result is
/// [`uppercase`] of the argument, a name for Unicode's uppercase mapping that the
/// library does not define; which character maps to which is left unsaid.
#[verifier::external_body]
fn to_uppercase(s: &str) -> (upper: String)
    ensures
        upper@ == uppercase(s@),
{
    s.to_uppercase()
}

/// The method that an uppercased method name selects: `POST`, `PUT` and `DELETE` their
/// own, any other name `GET`.
pub open spec fn method_for(upper: Seq<char>) -> HttpMethod {
    if upper == "POST"@ {
        HttpMethod::Post
    } else if upper == "PUT"@ {
        HttpMethod::Put
    } else if upper == "DELETE"@ {
        HttpMethod::Delete
    } else {
        HttpMethod::Get
    }
}

/// A method name that is none of `POST`, `PUT` and `DELETE` once uppercased selects
/// `GET`.
pub proof fn lemma_other_methods_get(upper: Seq<char>)
    requires
        upper != "POST"@,
        upper != "PUT"@,
        upper != "DELETE"@,
    ensures
        method_for(upper) == HttpMethod::Get,
{
}

/// Each of `POST`, `PUT` and `DELETE` selects its own method and nothing else does;
/// every other name selects `GET`.
pub proof fn lemma_method_by_name(upper: Seq<char>)
    ensures
        (method_for(upper) == HttpMethod::Post) == (upper == "POST"@),
        (method_for(upper) == HttpMethod::Put) == (upper == "PUT"@),
        (method_for(upper) == HttpMethod::Delete) == (upper == "DELETE"@),
        (method_for(upper) == HttpMethod::Get) == (upper != "POST"@ && upper != "PUT"@ && upper
            != "DELETE"@),
{
    reveal_strlit("POST");
    reveal_strlit("PUT");
    reveal_strlit("DELETE");
    assert("POST"@.len() != "PUT"@.len());
    assert("POST"@.len() != "DELETE"@.len());
    assert("PUT"@.len() != "DELETE"@.len());
}

/// The method that an already uppercased method name selects.
pub fn method_of_uppercase(upper: &str) -> (method: HttpMethod)
    ensures
        method == method_for(upper@),
        (method == HttpMethod::Post) == (upper@ == "POST"@),
        (method == HttpMethod::Put) == (upper@ == "PUT"@),
        (method == HttpMethod::Delete) == (upper@ == "DELETE"@),
        (method == HttpMethod::Get) == (upper@ != "POST"@ && upper@ != "PUT"@ && upper@ != "DELETE"@),
{
    proof {
        lemma_method_by_name(upper@);
    }
    if str_eq(upper, "POST") {
        HttpMethod::Post
    } else if str_eq(upper, "PUT") {
        HttpMethod::Put
    } else if str_eq(upper, "DELETE") {
        HttpMethod::Delete
    } else {
        HttpMethod::Get
    }
}

/// The method of a fetch that the page asked for by name: the name is uppercased
/// first, so the choice does not depend on case.
pub fn request_method(method: &str) -> (chosen: HttpMethod)
    ensures
        chosen == method_for(uppercase(method@)),
        (chosen == HttpMethod::Post) == (uppercase(method@) == "POST"@),
        (chosen == HttpMethod::Put) == (uppercase(method@) == "PUT"@),
        (chosen == HttpMethod::Delete) == (uppercase(method@) == "DELETE"@),
{
    let upper = to_uppercase(method);
    method_of_uppercase(upper.as_str())
}

/// A header the page asked for: its name, and its value where the value is a string.
pub open spec fn header_text(entry: (String, Option<String>)) -> (Seq<char>, Option<Seq<char>>) {
    (entry.0@, match entry.1 {
        Some(v) => Some(v@),
        None => None,
    })
}

/// The headers that are sent: those whose value is a string, in the order given.
pub open spec fn sent_headers(entries: Seq<(Seq<char>, Option<Seq<char>>)>) -> Seq<(Seq<char>, Seq<char>)>
    decreases entries.len(),
{
    if entries.len() == 0 {
        Seq::empty()
    } else {
        let rest = sent_headers(entries.drop_last());
        match entries.last().1 {
            Some(value) => rest.push((entries.last().0, value)),
            None => rest,
        }
    }
}

/// The headers that are sent are exactly the entries with a string value, in their
/// order, each as its name and value.
pub proof fn lemma_sent_headers_are_filtered(entries: Seq<(Seq<char>, Option<Seq<char>>)>)
    ensures
        sent_headers(entries) == entries.filter(
            |e: (Seq<char>, Option<Seq<char>>)| e.1 is Some,
        ).map_values(|e: (Seq<char>, Option<Seq<char>>)| (e.0, e.1->Some_0)),
    decreases entries.len(),
{
    reveal(Seq::filter);
    let p = |e: (Seq<char>, Option<Seq<char>>)| e.1 is Some;
    let g = |e: (Seq<char>, Option<Seq<char>>)| (e.0, e.1->Some_0);
    if entries.len() > 0 {
        lemma_sent_headers_are_filtered(entries.drop_last());
        let kept = entries.drop_last().filter(p);
        if entries.last().1 is Some {
            assert(kept.push(entries.last()).map_values(g) =~= kept.map_values(g).push(
                g(entries.last()),
            ));
        }
    } else {
        assert(entries.filter(p).map_values(g) =~= Seq::<(Seq<char>, Seq<char>)>::empty());
    }
}

/// Every entry with a string value is sent, as its name and value, and nothing else
/// is: as many headers are sent as entries have a string value.
pub proof fn lemma_every_string_header_sent(entries: Seq<(Seq<char>, Option<Seq<char>>)>)
    ensures
        sent_headers(entries).len() == entries.filter(
            |e: (Seq<char>, Option<Seq<char>>)| e.1 is Some,
        ).len(),
        forall|i: int|
            0 <= i < entries.len() && (#[trigger] entries[i]).1 is Some ==> sent_headers(
                entries,
            ).contains((entries[i].0, entries[i].1->Some_0)),
{
    let p = |e: (Seq<char>, Option<Seq<char>>)| e.1 is Some;
    let g = |e: (Seq<char>, Option<Seq<char>>)| (e.0, e.1->Some_0);
    lemma_sent_headers_are_filtered(entries);
    let kept = entries.filter(p);
    assert forall|i: int| 0 <= i < entries.len() && (#[trigger] entries[i]).1 is Some implies sent_headers(
        entries,
    ).contains((entries[i].0, entries[i].1->Some_0)) by {
        entries.lemma_filter_contains(p, i);
        let j = choose|j: int| 0 <= j < kept.len() && kept[j] == entries[i];
        assert(kept.map_values(g)[j] == g(entries[i]));
    }
}

/// The texts of a list of header names and values.
pub open spec fn header_pairs(headers: Seq<(String, String)>) -> Seq<(Seq<char>, Seq<char>)> {
    headers.map_values(|h: (String, String)| (h.0@, h.1@))
}

proof fn lemma_filter_texts_len(given: Seq<(String, Option<String>)>)
    ensures
        given.map_values(|e: (String, Option<String>)| header_text(e)).filter(
            |e: (Seq<char>, Option<Seq<char>>)| e.1 is Some,
        ).len() == given.filter(|e: (String, Option<String>)| e.1 is Some).len(),
    decreases given.len(),
{
    reveal(Seq::filter);
    let texts = given.map_values(|e: (String, Option<String>)| header_text(e));
    if given.len() > 0 {
        lemma_filter_texts_len(given.drop_last());
        assert(texts.drop_last() =~= given.drop_last().map_values(
            |e: (String, Option<String>)| header_text(e),
        ));
        assert(texts.last() == header_text(given.last()));
    }
}

/// The headers of a fetch that the page asked for, without those whose value is not a
/// string (`None` here), in the order given.
pub fn string_headers(entries: Vec<(String, Option<String>)>) -> (headers: Vec<(String, String)>)
    ensures
        header_pairs(headers@) == sent_headers(entries@.map_values(|e: (String, Option<String>)| header_text(e))),
        header_pairs(headers@) == entries@.map_values(
            |e: (String, Option<String>)| header_text(e),
        ).filter(|e: (Seq<char>, Option<Seq<char>>)| e.1 is Some).map_values(
            |e: (Seq<char>, Option<Seq<char>>)| (e.0, e.1->Some_0),
        ),
        headers@.len() == entries@.filter(|e: (String, Option<String>)| e.1 is Some).len(),
        forall|i: int|
            0 <= i < entries@.len() && (#[trigger] entries@[i]).1 is Some ==> header_pairs(
                headers@,
            ).contains((entries@[i].0@, entries@[i].1->Some_0@)),
{
    let ghost given = entries@;
    let ghost texts = given.map_values(|e: (String, Option<String>)| header_text(e));
    let mut headers: Vec<(String, String)> = Vec::new();
    for entry in it: entries.into_iter()
        invariant
            it.seq() == given,
            texts == given.map_values(|e: (String, Option<String>)| header_text(e)),
            it.index() <= given.len(),
            header_pairs(headers@) == sent_headers(texts.take(it.index() as int)),
    {
        let ghost i = it.index() as int;
        assert(texts.take(i + 1).drop_last() =~= texts.take(i));
        assert(texts.take(i + 1).last() == header_text(entry));
        let (name, value) = entry;
        match value {
            Some(v) => {
                let ghost before = headers@;
                headers.push((name, v));
                assert(header_pairs(headers@) =~= header_pairs(before).push((name@, v@)));
            },
            None => {},
        }
    }
    assert(texts.take(given.len() as int) =~= texts);
    proof {
        lemma_sent_headers_are_filtered(texts);
        lemma_every_string_header_sent(texts);
        lemma_filter_texts_len(given);
        assert forall|i: int|
            0 <= i < given.len() && (#[trigger] given[i]).1 is Some implies header_pairs(
                headers@,
            ).contains((given[i].0@, given[i].1->Some_0@)) by {
            assert(texts[i] == header_text(given[i]));
        }
    }
    headers
}

} // verus!
