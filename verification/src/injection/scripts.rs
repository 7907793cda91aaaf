use crate::injection::shared::InjectionError;
use vstd::prelude::*;

verus! {

/// The local script evaluated once the page has loaded.
pub const SCRIPT_NAME_POST: &'static str = "post.js";

/// The local script run before the page's own scripts.
pub const SCRIPT_NAME_PRE: &'static str = "pre.js";

/// The text of a script that was loaded, or nothing when it could not be.
pub open spec fn loaded_or_empty(loaded: Result<String, InjectionError>) -> Seq<char> {
    match loaded {
        Ok(text) => text@,
        Err(_) => Seq::empty(),
    }
}

/// A script that was loaded is used exactly as loaded, whatever it holds; only a
/// failed load gives the empty script.
pub proof fn lemma_script_is_loaded_text(loaded: Result<String, InjectionError>)
    ensures
        loaded matches Ok(text) ==> loaded_or_empty(loaded) == text@,
        loaded matches Err(_) ==> loaded_or_empty(loaded) == Seq::<char>::empty(),
{
}

/// The post-inject script, given the outcome of loading [`SCRIPT_NAME_POST`]; the
/// empty script when it could not be loaded.
pub fn get_post_inject_script(loaded: Result<String, InjectionError>) -> (script: String)
    ensures
        script@ == loaded_or_empty(loaded),
        loaded matches Ok(text) ==> script@ == text@,
        loaded matches Err(_) ==> script@ == Seq::<char>::empty(),
{
    proof {
        lemma_script_is_loaded_text(loaded);
    }
    match loaded {
        Ok(text) => text,
        Err(_) => String::new(),
    }
}

/// The pre-inject script, given the outcome of loading [`SCRIPT_NAME_PRE`]; the empty
/// script when it could not be loaded.
pub fn get_pre_inject_script(loaded: Result<String, InjectionError>) -> (script: String)
    ensures
        script@ == loaded_or_empty(loaded),
        loaded matches Ok(text) ==> script@ == text@,
        loaded matches Err(_) ==> script@ == Seq::<char>::empty(),
{
    proof {
        lemma_script_is_loaded_text(loaded);
    }
    match loaded {
        Ok(text) => text,
        Err(_) => String::new(),
    }
}

} // verus!
