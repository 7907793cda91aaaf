use leto::scripts::{
    get_post_inject_script, get_pre_inject_script, ClientMods, BETTER_DISCORD_SCRIPT,
    EQUICORD_SCRIPT, SCRIPT_NAME_POST, SCRIPT_NAME_PRE, SHELTER_SCRIPT, VENCORD_SCRIPT,
};

#[test]
fn new_client_mods_have_nothing_enabled() {
    let mods = ClientMods::new();
    assert!(!mods.vencord && !mods.better_discord && !mods.shelter && !mods.equicord);
    assert!(mods.get_scripts().is_empty());
    let default = ClientMods::default();
    assert!(!default.vencord && !default.better_discord && !default.shelter && !default.equicord);
}

#[test]
fn set_known_names() {
    let mut mods = ClientMods::new();
    mods.set("shelter", true);
    assert!(mods.shelter);
    assert_eq!(mods.get_scripts(), vec![SHELTER_SCRIPT.to_string()]);
    mods.set("vencord", true);
    mods.set("equicord", true);
    mods.set("better_discord", true);
    assert_eq!(
        mods.get_scripts(),
        vec![
            "https://github.com/Vendicated/Vencord/releases/download/devbuild/vencordDesktopMain.js".to_string(),
            "better_discord.js".to_string(),
            "https://raw.githubusercontent.com/uwu/shelter-builds/main/shelter.js".to_string(),
            "equicord.js".to_string(),
        ]
    );
    mods.set("vencord", false);
    assert_eq!(
        mods.get_scripts(),
        vec![
            BETTER_DISCORD_SCRIPT.to_string(),
            SHELTER_SCRIPT.to_string(),
            EQUICORD_SCRIPT.to_string(),
        ]
    );
}

#[test]
fn set_unknown_names_changes_nothing() {
    let mut mods = ClientMods::new();
    mods.set("Shelter", true);
    mods.set("better-discord", true);
    mods.set("", true);
    mods.set("vencord ", true);
    assert!(mods.get_scripts().is_empty());
    mods.set("equicord", true);
    mods.set("unknown", false);
    assert_eq!(mods.get_scripts(), vec![EQUICORD_SCRIPT.to_string()]);
}

#[test]
fn last_set_wins() {
    let mut mods = ClientMods::new();
    mods.set("vencord", true);
    mods.set("vencord", false);
    assert!(!mods.vencord);
    mods.set("vencord", false);
    mods.set("vencord", true);
    assert!(mods.vencord);
    assert_eq!(mods.get_scripts(), vec![VENCORD_SCRIPT.to_string()]);
}

#[test]
fn one_script_per_enabled_mod() {
    let names = ["vencord", "better_discord", "shelter", "equicord"];
    for mask in 0u32..16 {
        let mut mods = ClientMods::new();
        for (bit, name) in names.iter().enumerate() {
            mods.set(name, mask & (1 << bit) != 0);
        }
        assert_eq!(mods.get_scripts().len(), mask.count_ones() as usize);
    }
}

#[test]
fn top_level_scripts_fall_back_to_empty() {
    assert_eq!(SCRIPT_NAME_POST, "post.js");
    assert_eq!(SCRIPT_NAME_PRE, "pre.js");
    assert_eq!(get_post_inject_script(Some("post();".to_string())), "post();");
    assert_eq!(get_pre_inject_script(Some("pre();".to_string())), "pre();");
    assert_eq!(get_post_inject_script(None), "");
    assert_eq!(get_pre_inject_script(None), "");
}

#[test]
fn setting_back_restores() {
    let mut mods = ClientMods::new();
    mods.set("better_discord", true);
    let before = mods.get_scripts();
    mods.set("shelter", true);
    assert_ne!(mods.get_scripts(), before);
    mods.set("shelter", false);
    assert_eq!(mods.get_scripts(), before);
}
