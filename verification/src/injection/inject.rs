use crate::injection::shared::InjectionError;
use crate::text::{has_prefix, starts_with};
use vstd::prelude::*;
use vstd::string::StringExecFns;

verus! {

/// The text of an optional string, as a sequence of characters.
pub open spec fn opt_text(s: Option<String>) -> Option<Seq<char>> {
    match s {
        Some(t) => Some(t@),
        None => None,
    }
}

/// What an [`Injectable`] holds: the script's link or path, and the styles' link or path
/// where there are styles.
pub struct InjectableView {
    pub script: Seq<char>,
    pub styles: Option<Seq<char>>,
}

/// A script to inject into the page, with an optional stylesheet.
/// Each is either an `http` link or a path to a local file.
pub struct Injectable {
    script: String,
    styles: Option<String>,
}

impl View for Injectable {
    type V = InjectableView;

    closed spec fn view(&self) -> InjectableView {
        InjectableView { script: self.script@, styles: opt_text(self.styles) }
    }
}

/// The styles' link or path, or nothing when there are none.
pub open spec fn styles_or_empty(styles: Option<Seq<char>>) -> Seq<char> {
    match styles {
        Some(s) => s,
        None => Seq::empty(),
    }
}

impl Injectable {
    pub fn new(script: String, styles: Option<String>) -> (injectable: Self)
        ensures
            injectable@.script == script@,
            injectable@.styles == opt_text(styles),
            styles matches Some(t) ==> injectable@.styles == Some(t@),
            styles is None ==> injectable@.styles is None,
    {
        Injectable { script, styles }
    }

    pub fn get_script(&self) -> (script: &str)
        ensures
            script@ == self@.script,
    {
        self.script.as_str()
    }

    /// The styles' link or path; the empty string when the injectable has no styles.
    pub fn get_styles(&self) -> (styles: &str)
        ensures
            styles@ == styles_or_empty(self@.styles),
            self@.styles matches Some(t) ==> styles@ == t,
            self@.styles is None ==> styles@ == Seq::<char>::empty(),
    {
        match &self.styles {
            Some(s) => s.as_str(),
            None => {
                let empty: &str = "";
                proof {
                    reveal_strlit("");
                }
                empty
            },
        }
    }
}

/// Opening text of the script that installs a stylesheet; the styles follow it.
pub const CSS_WRAP_OPEN: &'static str = "\n    (function() {\n        let style = document.createElement('style');\n        style.type = 'text/css';\n        style.innerHTML = `";

/// Closing text of the script that installs a stylesheet.
pub const CSS_WRAP_CLOSE: &'static str = "`;\n        document.head.appendChild(style);\n    })();\n    ";

/// Wraps CSS in a script that appends it to the page as a `<style>` element.
pub fn wrap_css(styles: &str) -> (wrapped: String)
    ensures
        wrapped@ == CSS_WRAP_OPEN@ + styles@ + CSS_WRAP_CLOSE@,
{
    let mut wrapped = String::from_str(CSS_WRAP_OPEN);
    wrapped.append(styles);
    wrapped.append(CSS_WRAP_CLOSE);
    wrapped
}

/// Where a script or stylesheet is loaded from.
#[derive(Debug, Clone, Copy, PartialEq, Eq, Structural)]
pub enum Source {
    /// Fetched over the network.
    Url,
    /// Read from the local scripts' directory.
    File,
}

/// A location names a link when it begins with `http`, and a local file otherwise.
pub open spec fn source_for(location: Seq<char>) -> Source {
    if has_prefix(location, "http"@) {
        Source::Url
    } else {
        Source::File
    }
}

/// A location is fetched over the network exactly when its first four characters are
/// `http`, whatever its length, and read from a local file otherwise.
pub proof fn lemma_url_exactly_when_http(location: Seq<char>)
    ensures
        (source_for(location) == Source::Url) == (location.len() >= 4 && location.subrange(0, 4)
            == "http"@),
        (source_for(location) == Source::File) == !(location.len() >= 4 && location.subrange(0, 4)
            == "http"@),
{
    reveal_strlit("http");
}

/// Whether a location is fetched over the network or read from a local file.
pub fn source_of(location: &str) -> (source: Source)
    ensures
        source == source_for(location@),
        (source == Source::Url) == (location@.len() >= 4 && location@.subrange(0, 4) == "http"@),
        (source == Source::File) == !(location@.len() >= 4 && location@.subrange(0, 4) == "http"@),
{
    proof {
        lemma_url_exactly_when_http(location@);
    }
    if starts_with(location, "http") {
        Source::Url
    } else {
        Source::File
    }
}

/// One script or stylesheet to load: from where, and its link or path.
pub struct LoadRequest {
    pub source: Source,
    pub location: String,
}

/// What injecting an [`Injectable`] loads: its script, and its styles where there are any.
pub struct InjectionPlan {
    pub script: LoadRequest,
    pub styles: Option<LoadRequest>,
}

/// The request that loads a location.
pub open spec fn request_for(request: LoadRequest, location: Seq<char>) -> bool {
    request.location@ == location && request.source == source_for(location)
}

fn load_request(location: &str) -> (request: LoadRequest)
    ensures
        request_for(request, location@),
{
    LoadRequest { source: source_of(location), location: String::from_str(location) }
}

/// What to load for an injectable: its script always; its styles only when their link
/// or path is not empty.
pub fn plan_injection(injectable: &Injectable) -> (plan: InjectionPlan)
    ensures
        request_for(plan.script, injectable@.script),
        styles_or_empty(injectable@.styles).len() == 0 ==> plan.styles is None,
        styles_or_empty(injectable@.styles).len() != 0 ==> (plan.styles matches Some(r)
            && request_for(r, styles_or_empty(injectable@.styles))),
        plan.script.location@ == injectable@.script,
        (plan.script.source == Source::Url) == (injectable@.script.len() >= 4
            && injectable@.script.subrange(0, 4) == "http"@),
        plan.styles is Some <==> (injectable@.styles matches Some(t) && t.len() > 0),
        plan.styles matches Some(r) ==> (injectable@.styles matches Some(t) && r.location@ == t
            && (r.source == Source::Url) == (t.len() >= 4 && t.subrange(0, 4) == "http"@)),
{
    proof {
        lemma_url_exactly_when_http(injectable@.script);
        lemma_url_exactly_when_http(styles_or_empty(injectable@.styles));
    }
    let script = load_request(injectable.get_script());
    let styles_location = injectable.get_styles();
    let styles = if styles_location.is_empty() {
        None
    } else {
        Some(load_request(styles_location))
    };
    InjectionPlan { script, styles }
}

/// The stylesheet's part of the injected script: nothing when there are no styles,
/// else the script that installs them.
pub open spec fn wrapped_styles(styles: Seq<char>) -> Seq<char> {
    if styles.len() == 0 {
        Seq::empty()
    } else {
        CSS_WRAP_OPEN@ + styles + CSS_WRAP_CLOSE@
    }
}

/// The script that is evaluated to inject a script with its styles: the styles'
/// part, `;`, a line break, then the script.
pub open spec fn injected_script(script: Seq<char>, styles: Seq<char>) -> Seq<char> {
    wrapped_styles(styles) + ";\n"@ + script
}

/// Combines the loaded script and styles into the script to evaluate. A failure to
/// load the script is reported before a failure to load the styles.
pub fn assemble_injection(
    script: Result<String, InjectionError>,
    styles: Result<String, InjectionError>,
) -> (injected: Result<String, InjectionError>)
    ensures
        match (script, styles) {
            (Ok(s), Ok(st)) => injected matches Ok(text) && text@ == injected_script(s@, st@),
            (Err(e), _) => injected == Err::<String, InjectionError>(e),
            (Ok(_), Err(e)) => injected == Err::<String, InjectionError>(e),
        },
        match (script, styles) {
            (Ok(s), Ok(st)) => if st@.len() == 0 {
                injected matches Ok(text) && text@ == ";\n"@ + s@
            } else {
                injected matches Ok(text) && text@ == CSS_WRAP_OPEN@ + st@ + CSS_WRAP_CLOSE@
                    + ";\n"@ + s@
            },
            _ => true,
        },
{
    match (script, styles) {
        (Ok(script_content), Ok(styles_content)) => {
            proof {
                lemma_no_styles_injects_script_alone(script_content@);
                if styles_content@.len() > 0 {
                    lemma_styles_wrapped_before_script(script_content@, styles_content@);
                }
            }
            let mut text = if styles_content.as_str().is_empty() {
                String::new()
            } else {
                wrap_css(styles_content.as_str())
            };
            text.append(";\n");
            text.append(script_content.as_str());
            Ok(text)
        },
        (Err(e), _) => Err(e),
        (_, Err(e)) => Err(e),
    }
}

/// Without styles, the injected script is the loaded script after an empty statement.
pub proof fn lemma_no_styles_injects_script_alone(script: Seq<char>)
    ensures
        injected_script(script, Seq::empty()) == ";\n"@ + script,
{
    assert(Seq::<char>::empty() + ";\n"@ =~= ";\n"@);
}

/// The injected script ends with the loaded script, unchanged.
pub proof fn lemma_injected_script_ends_with_script(script: Seq<char>, styles: Seq<char>)
    ensures
        ({
            let injected = injected_script(script, styles);
            &&& script.len() <= injected.len()
            &&& injected.subrange(injected.len() - script.len(), injected.len() as int) == script
        }),
{
    let injected = injected_script(script, styles);
    let head = wrapped_styles(styles) + ";\n"@;
    assert(injected == head + script);
    assert(injected.subrange(head.len() as int, injected.len() as int) =~= script);
}

/// With styles, the injected script is the stylesheet script that [`wrap_css`] makes
/// of them, then `;`, a line break and the loaded script.
pub proof fn lemma_styles_wrapped_before_script(script: Seq<char>, styles: Seq<char>)
    requires
        styles.len() > 0,
    ensures
        injected_script(script, styles) == CSS_WRAP_OPEN@ + styles + CSS_WRAP_CLOSE@ + ";\n"@
            + script,
{
}

/// Styles that are present stand verbatim in the injected script, right after the
/// opening of the stylesheet script.
pub proof fn lemma_styles_embedded_verbatim(script: Seq<char>, styles: Seq<char>)
    requires
        styles.len() > 0,
    ensures
        ({
            let injected = injected_script(script, styles);
            let start = CSS_WRAP_OPEN@.len() as int;
            &&& start + styles.len() <= injected.len()
            &&& injected.subrange(0, start) == CSS_WRAP_OPEN@
            &&& injected.subrange(start, start + styles.len()) == styles
        }),
{
    let injected = injected_script(script, styles);
    let start = CSS_WRAP_OPEN@.len() as int;
    assert(injected == CSS_WRAP_OPEN@ + styles + (CSS_WRAP_CLOSE@ + ";\n"@ + script));
    assert(injected.subrange(0, start) =~= CSS_WRAP_OPEN@);
    assert(injected.subrange(start, start + styles.len()) =~= styles);
}

} // verus!
