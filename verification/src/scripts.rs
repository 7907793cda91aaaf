use crate::text::str_eq;
use vstd::prelude::*;

verus! {

/// The local script evaluated once the page has loaded.
pub const SCRIPT_NAME_POST: &'static str = "post.js";

/// The local script run before the page's own scripts.
pub const SCRIPT_NAME_PRE: &'static str = "pre.js";

/// Where Vencord's script is fetched from.
pub const VENCORD_SCRIPT: &'static str = "https://github.com/Vendicated/Vencord/releases/download/devbuild/vencordDesktopMain.js";

/// BetterDiscord's local script.
pub const BETTER_DISCORD_SCRIPT: &'static str = "better_discord.js";

/// Where Shelter's script is fetched from.
pub const SHELTER_SCRIPT: &'static str = "https://raw.githubusercontent.com/uwu/shelter-builds/main/shelter.js";

/// Equicord's local script.
pub const EQUICORD_SCRIPT: &'static str = "equicord.js";

/// The text of a script that was read, or nothing when it could not be.
pub open spec fn read_or_empty(read: Option<String>) -> Seq<char> {
    match read {
        Some(text) => text@,
        None => Seq::empty(),
    }
}

/// A script that was read is used exactly as read, whatever it holds; only a failed
/// read gives the empty script.
pub proof fn lemma_script_is_read_text(read: Option<String>)
    ensures
        read matches Some(text) ==> read_or_empty(read) == text@,
        read matches None ==> read_or_empty(read) == Seq::<char>::empty(),
{
}

/// The post-inject script, given the text of [`SCRIPT_NAME_POST`] where it could be
/// read; the empty script where it could not.
pub fn get_post_inject_script(read: Option<String>) -> (script: String)
    ensures
        script@ == read_or_empty(read),
        read matches Some(text) ==> script@ == text@,
        read matches None ==> script@ == Seq::<char>::empty(),
{
    proof {
        lemma_script_is_read_text(read);
    }
    match read {
        Some(text) => text,
        None => String::new(),
    }
}

/// The pre-inject script, given the text of [`SCRIPT_NAME_PRE`] where it could be
/// read; the empty script where it could not.
pub fn get_pre_inject_script(read: Option<String>) -> (script: String)
    ensures
        script@ == read_or_empty(read),
        read matches Some(text) ==> script@ == text@,
        read matches None ==> script@ == Seq::<char>::empty(),
{
    proof {
        lemma_script_is_read_text(read);
    }
    match read {
        Some(text) => text,
        None => String::new(),
    }
}

/// Which client mods are enabled. Shelter hosts some of the scripts that the client
/// itself relies on.
#[derive(Debug)]
pub struct ClientMods {
    pub vencord: bool,
    pub better_discord: bool,
    pub shelter: bool,
    pub equicord: bool,
}

/// No client mod enabled.
pub open spec fn no_mods() -> ClientMods {
    ClientMods { vencord: false, better_discord: false, shelter: false, equicord: false }
}

/// `mods` with the flag called `name` set to `value`; unchanged when no flag has that
/// name.
pub open spec fn with_flag(mods: ClientMods, name: Seq<char>, value: bool) -> ClientMods {
    if name == "vencord"@ {
        ClientMods { vencord: value, ..mods }
    } else if name == "better_discord"@ {
        ClientMods { better_discord: value, ..mods }
    } else if name == "shelter"@ {
        ClientMods { shelter: value, ..mods }
    } else if name == "equicord"@ {
        ClientMods { equicord: value, ..mods }
    } else {
        mods
    }
}

/// One script when a mod is enabled, none when it is not.
pub open spec fn script_if(enabled: bool, script: Seq<char>) -> Seq<Seq<char>> {
    if enabled {
        seq![script]
    } else {
        Seq::empty()
    }
}

/// The scripts of the enabled mods, in the order Vencord, BetterDiscord, Shelter,
/// Equicord.
pub open spec fn enabled_scripts(mods: ClientMods) -> Seq<Seq<char>> {
    script_if(mods.vencord, VENCORD_SCRIPT@) + script_if(mods.better_discord, BETTER_DISCORD_SCRIPT@)
        + script_if(mods.shelter, SHELTER_SCRIPT@) + script_if(mods.equicord, EQUICORD_SCRIPT@)
}

/// The texts of a list of strings.
pub open spec fn texts(strings: Seq<String>) -> Seq<Seq<char>> {
    strings.map_values(|s: String| s@)
}

impl Default for ClientMods {
    fn default() -> (mods: Self)
        ensures
            mods == no_mods(),
    {
        ClientMods { vencord: false, better_discord: false, shelter: false, equicord: false }
    }
}

impl ClientMods {
    /// All mods disabled.
    pub fn new() -> (mods: Self)
        ensures
            mods == no_mods(),
    {
        Self::default()
    }

    /// Enables or disables the mod called `name`: `vencord`, `better_discord`,
    /// `shelter` or `equicord`. Any other name changes nothing.
    pub fn set(&mut self, name: &str, value: bool)
        ensures
            *final(self) == with_flag(*old(self), name@, value),
            final(self).vencord == if name@ == "vencord"@ {
                value
            } else {
                old(self).vencord
            },
            final(self).better_discord == if name@ == "better_discord"@ {
                value
            } else {
                old(self).better_discord
            },
            final(self).shelter == if name@ == "shelter"@ {
                value
            } else {
                old(self).shelter
            },
            final(self).equicord == if name@ == "equicord"@ {
                value
            } else {
                old(self).equicord
            },
    {
        proof {
            lemma_set_changes_only_named_flag(*old(self), name@, value);
        }
        if str_eq(name, "vencord") {
            self.vencord = value;
        } else if str_eq(name, "better_discord") {
            self.better_discord = value;
        } else if str_eq(name, "shelter") {
            self.shelter = value;
        } else if str_eq(name, "equicord") {
            self.equicord = value;
        }
    }

    /// The scripts of the enabled mods, in the order Vencord, BetterDiscord, Shelter,
    /// Equicord.
    pub fn get_scripts(&self) -> (scripts: Vec<String>)
        ensures
            texts(scripts@) == enabled_scripts(*self),
            texts(scripts@) == seq![
                (self.vencord, VENCORD_SCRIPT@),
                (self.better_discord, BETTER_DISCORD_SCRIPT@),
                (self.shelter, SHELTER_SCRIPT@),
                (self.equicord, EQUICORD_SCRIPT@),
            ].filter(|p: (bool, Seq<char>)| p.0).map_values(|p: (bool, Seq<char>)| p.1),
    {
        proof {
            lemma_scripts_in_fixed_order(*self);
        }
        let mut scripts: Vec<String> = Vec::new();
        if self.vencord {
            scripts.push(VENCORD_SCRIPT.to_string());
        }
        assert(texts(scripts@) =~= script_if(self.vencord, VENCORD_SCRIPT@));
        let ghost s1 = texts(scripts@);
        if self.better_discord {
            scripts.push(BETTER_DISCORD_SCRIPT.to_string());
        }
        assert(texts(scripts@) =~= s1 + script_if(self.better_discord, BETTER_DISCORD_SCRIPT@));
        let ghost s2 = texts(scripts@);
        if self.shelter {
            scripts.push(SHELTER_SCRIPT.to_string());
        }
        assert(texts(scripts@) =~= s2 + script_if(self.shelter, SHELTER_SCRIPT@));
        let ghost s3 = texts(scripts@);
        if self.equicord {
            scripts.push(EQUICORD_SCRIPT.to_string());
        }
        assert(texts(scripts@) =~= s3 + script_if(self.equicord, EQUICORD_SCRIPT@));
        scripts
    }
}

/// Whether `name` is one of the names that [`ClientMods::set`] knows.
pub open spec fn is_mod_name(name: Seq<char>) -> bool {
    name == "vencord"@ || name == "better_discord"@ || name == "shelter"@ || name == "equicord"@
}

/// The script of the mod called `name`.
pub open spec fn script_of(name: Seq<char>) -> Seq<char> {
    if name == "vencord"@ {
        VENCORD_SCRIPT@
    } else if name == "better_discord"@ {
        BETTER_DISCORD_SCRIPT@
    } else if name == "shelter"@ {
        SHELTER_SCRIPT@
    } else {
        EQUICORD_SCRIPT@
    }
}

/// How many mods are enabled.
pub open spec fn enabled_count(mods: ClientMods) -> nat {
    (if mods.vencord { 1nat } else { 0nat }) + (if mods.better_discord { 1nat } else { 0nat })
        + (if mods.shelter { 1nat } else { 0nat }) + (if mods.equicord { 1nat } else { 0nat })
}

/// A new set of client mods lists no script.
pub proof fn lemma_new_lists_no_scripts()
    ensures
        enabled_scripts(no_mods()) == Seq::<Seq<char>>::empty(),
{
    assert(enabled_scripts(no_mods()) =~= Seq::<Seq<char>>::empty());
}

/// The scripts listed are one per enabled mod.
pub proof fn lemma_one_script_per_enabled_mod(mods: ClientMods)
    ensures
        enabled_scripts(mods).len() == enabled_count(mods),
{
}

/// After a known mod is enabled its script is listed, and after it is disabled it is
/// not, whatever the other mods are.
pub proof fn lemma_set_decides_listing(mods: ClientMods, name: Seq<char>, value: bool)
    requires
        is_mod_name(name),
    ensures
        enabled_scripts(with_flag(mods, name, value)).contains(script_of(name)) == value,
{
    reveal_strlit("https://github.com/Vendicated/Vencord/releases/download/devbuild/vencordDesktopMain.js");
    reveal_strlit("better_discord.js");
    reveal_strlit("https://raw.githubusercontent.com/uwu/shelter-builds/main/shelter.js");
    reveal_strlit("equicord.js");
    reveal_strlit("vencord");
    reveal_strlit("better_discord");
    reveal_strlit("shelter");
    reveal_strlit("equicord");
    let after = with_flag(mods, name, value);
    let listed = enabled_scripts(after);
    let target = script_of(name);
    if value {
        if name == "vencord"@ {
            assert(listed[0] == target);
        } else if name == "better_discord"@ {
            assert(listed[script_if(after.vencord, VENCORD_SCRIPT@).len() as int] == target);
        } else if name == "shelter"@ {
            assert(listed[(script_if(after.vencord, VENCORD_SCRIPT@).len() + script_if(after.better_discord, BETTER_DISCORD_SCRIPT@).len()) as int] == target);
        } else {
            assert(listed[listed.len() - 1] == target);
        }
    } else {
        assert forall|i: int| 0 <= i < listed.len() implies listed[i] != target by {
            assert(listed[i].len() != target.len());
        }
    }
}

/// Setting a mod twice leaves it as the second call set it.
pub proof fn lemma_last_set_wins(mods: ClientMods, name: Seq<char>, first: bool, second: bool)
    ensures
        with_flag(with_flag(mods, name, first), name, second) == with_flag(mods, name, second),
{
}

/// Setting `name` changes the flag of the mod with exactly that name, to `value`, and
/// no other flag.
pub proof fn lemma_set_changes_only_named_flag(mods: ClientMods, name: Seq<char>, value: bool)
    ensures
        with_flag(mods, name, value).vencord == if name == "vencord"@ {
            value
        } else {
            mods.vencord
        },
        with_flag(mods, name, value).better_discord == if name == "better_discord"@ {
            value
        } else {
            mods.better_discord
        },
        with_flag(mods, name, value).shelter == if name == "shelter"@ {
            value
        } else {
            mods.shelter
        },
        with_flag(mods, name, value).equicord == if name == "equicord"@ {
            value
        } else {
            mods.equicord
        },
{
    reveal_strlit("vencord");
    reveal_strlit("better_discord");
    reveal_strlit("shelter");
    reveal_strlit("equicord");
    assert("vencord"@[0] != "shelter"@[0]);
    assert("vencord"@.len() != "better_discord"@.len());
    assert("vencord"@.len() != "equicord"@.len());
    assert("shelter"@.len() != "better_discord"@.len());
    assert("shelter"@.len() != "equicord"@.len());
    assert("equicord"@.len() != "better_discord"@.len());
}

/// The scripts listed are those of the enabled mods, taken from the list Vencord,
/// BetterDiscord, Shelter, Equicord in that order.
pub proof fn lemma_scripts_in_fixed_order(mods: ClientMods)
    ensures
        enabled_scripts(mods) == seq![
            (mods.vencord, VENCORD_SCRIPT@),
            (mods.better_discord, BETTER_DISCORD_SCRIPT@),
            (mods.shelter, SHELTER_SCRIPT@),
            (mods.equicord, EQUICORD_SCRIPT@),
        ].filter(|p: (bool, Seq<char>)| p.0).map_values(|p: (bool, Seq<char>)| p.1),
{
    let all = seq![
        (mods.vencord, VENCORD_SCRIPT@),
        (mods.better_discord, BETTER_DISCORD_SCRIPT@),
        (mods.shelter, SHELTER_SCRIPT@),
        (mods.equicord, EQUICORD_SCRIPT@),
    ];
    let p = |p: (bool, Seq<char>)| p.0;
    let g = |p: (bool, Seq<char>)| p.1;
    reveal_with_fuel(Seq::filter, 5);
    assert(all.drop_last().drop_last().drop_last().drop_last() =~= Seq::<(bool, Seq<char>)>::empty());
    assert(all.drop_last().drop_last().drop_last() =~= seq![(mods.vencord, VENCORD_SCRIPT@)]);
    assert(all.drop_last().drop_last() =~= seq![
        (mods.vencord, VENCORD_SCRIPT@),
        (mods.better_discord, BETTER_DISCORD_SCRIPT@),
    ]);
    assert(all.drop_last() =~= seq![
        (mods.vencord, VENCORD_SCRIPT@),
        (mods.better_discord, BETTER_DISCORD_SCRIPT@),
        (mods.shelter, SHELTER_SCRIPT@),
    ]);
    assert(all.filter(p).map_values(g) =~= enabled_scripts(mods));
}

/// Whether the mod called `name` is enabled; `false` for a name no mod has.
pub open spec fn flag_of(mods: ClientMods, name: Seq<char>) -> bool {
    if name == "vencord"@ {
        mods.vencord
    } else if name == "better_discord"@ {
        mods.better_discord
    } else if name == "shelter"@ {
        mods.shelter
    } else if name == "equicord"@ {
        mods.equicord
    } else {
        false
    }
}

/// Setting a mod back to what it was undoes setting it.
pub proof fn lemma_set_back_restores(mods: ClientMods, name: Seq<char>, value: bool)
    ensures
        with_flag(with_flag(mods, name, value), name, flag_of(mods, name)) == mods,
{
}

/// Setting a name that no mod has changes nothing.
pub proof fn lemma_unknown_name_changes_nothing(mods: ClientMods, name: Seq<char>, value: bool)
    requires
        !is_mod_name(name),
    ensures
        with_flag(mods, name, value) == mods,
{
}

} // verus!
