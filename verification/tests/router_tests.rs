use cocbot::dict::Dictionary;
use cocbot::router::handle_message;
use cocbot::store::AliasStore;

fn pairs(ps: &[(&str, &str)]) -> Vec<(String, String)> {
    ps.iter().map(|(k, v)| (k.to_string(), v.to_string())).collect()
}

fn test_dict() -> Dictionary {
    Dictionary::from_entries(pairs(&[
        ("foobar", "Lore about foobar."),
        ("elder sign", "A protective symbol."),
    ]))
}

fn run(store: &mut AliasStore, msg: &str) -> Option<String> {
    let dict = test_dict();
    handle_message("!coc", msg, &dict, store)
}

#[test]
fn version_command() {
    let mut store = AliasStore::new();
    assert_eq!(
        run(&mut store, "!coc version").as_deref(),
        Some("I'm CocBot v2.0.0, written in Rust!!")
    );
}

#[test]
fn help_command_concatenates_all_usage_strings() {
    let mut store = AliasStore::new();
    let reply = run(&mut store, "!coc help").unwrap();
    assert!(reply.starts_with("```resist: Check CoC resistance!"));
    assert!(reply.contains("find: Use this command to find something"));
    assert!(reply.contains("add-alias: Adds an alias to a 'find'"));
    assert!(reply.contains("remove-alias: Removes an alias"));
    assert!(reply.contains("get-alias: Displays an alias"));
    assert!(reply.ends_with("```"));
}

#[test]
fn routing_silence_without_prefix() {
    let mut store = AliasStore::new();
    assert_eq!(run(&mut store, "hello there"), None);
    assert_eq!(run(&mut store, "coc version"), None);
    assert_eq!(run(&mut store, ""), None);
}

#[test]
fn routing_silence_unknown_verb() {
    let mut store = AliasStore::new();
    assert_eq!(run(&mut store, "!coc frobnicate 1 2"), None);
    assert_eq!(run(&mut store, "!coc Version"), None);
    assert_eq!(run(&mut store, "!coc"), None);
    assert_eq!(run(&mut store, "!coc    "), None);
}

#[test]
fn resist_automatic_success() {
    let mut store = AliasStore::new();
    assert_eq!(
        run(&mut store, "!coc resist 10 vs 0").as_deref(),
        Some(
            "Let's see...\nActive: **10**\nPassive: **0**\nThe result is an **Automatic Success**!!\\(^o^)/"
        )
    );
}

#[test]
fn resist_automatic_failure() {
    let mut store = AliasStore::new();
    assert_eq!(
        run(&mut store, "!coc resist 0 vs 10").as_deref(),
        Some(
            "Let's see...\nActive: **0**\nPassive: **10**\nThe result is an **Automatic Failure**!! (´・ω・`)"
        )
    );
}

#[test]
fn resist_numeric_boundaries() {
    let mut store = AliasStore::new();
    // margin 95 is still numeric, not an automatic success
    assert_eq!(
        run(&mut store, "!coc resist 9 vs 0").as_deref(),
        Some(
            "Let's see...\nActive: **9**\nPassive: **0**\nThe result is **95**!! （｀・ω・´）"
        )
    );
    // margin 5 is still numeric, not an automatic failure
    assert_eq!(
        run(&mut store, "!coc resist 0 vs 9").as_deref(),
        Some("Let's see...\nActive: **0**\nPassive: **9**\nThe result is **5**!! （｀・ω・´）")
    );
}

#[test]
fn resist_is_deterministic() {
    let mut store = AliasStore::new();
    let a = run(&mut store, "!coc resist 3 vs 7");
    let b = run(&mut store, "!coc resist 3 vs 7");
    assert_eq!(a, b);
    assert!(a.is_some());
}

#[test]
fn resist_negative_values() {
    let mut store = AliasStore::new();
    assert_eq!(
        run(&mut store, "!coc resist -1 vs 2").as_deref(),
        Some("Let's see...\nActive: **-1**\nPassive: **2**\nThe result is **35**!! （｀・ω・´）")
    );
}

#[test]
fn resist_malformed_input_yields_usage_help() {
    let mut store = AliasStore::new();
    let help = "```resist: Check CoC resistance!\n\t> Usage: !coc resist <active> vs <passive>\n```";
    assert_eq!(run(&mut store, "!coc resist 1 vs").as_deref(), Some(help));
    assert_eq!(run(&mut store, "!coc resist x vs 2").as_deref(), Some(help));
    assert_eq!(run(&mut store, "!coc resist 1 against 2").as_deref(), Some(help));
    assert_eq!(run(&mut store, "!coc resist 1 vs 2 3").as_deref(), Some(help));
    assert_eq!(run(&mut store, "!coc resist 3000000000 vs 0").as_deref(), Some(help));
}

#[test]
fn find_direct_hit() {
    let mut store = AliasStore::new();
    assert_eq!(
        run(&mut store, "!coc find foobar").as_deref(),
        Some("I found **foobar**! ```Lore about foobar.```")
    );
}

#[test]
fn find_is_case_insensitive() {
    let mut store = AliasStore::new();
    let upper = run(&mut store, "!coc find FooBar");
    let lower = run(&mut store, "!coc find foobar");
    assert_eq!(upper, lower);
    assert!(upper.unwrap().contains("I found **foobar**!"));
}

#[test]
fn find_joins_arguments_with_single_spaces() {
    let mut store = AliasStore::new();
    assert_eq!(
        run(&mut store, "!coc find   Elder    SIGN").as_deref(),
        Some("I found **elder sign**! ```A protective symbol.```")
    );
}

#[test]
fn find_miss() {
    let mut store = AliasStore::new();
    assert_eq!(
        run(&mut store, "!coc find nothing here").as_deref(),
        Some("Sorry...I can't find what you are looking for >_<")
    );
}

#[test]
fn find_without_arguments_yields_usage_help() {
    let mut store = AliasStore::new();
    assert_eq!(
        run(&mut store, "!coc find").as_deref(),
        Some("```find: Use this command to find something\n\t> Usage: !coc find <something>\n```")
    );
}

#[test]
fn alias_round_trip() {
    let mut store = AliasStore::new();
    assert_eq!(
        run(&mut store, "!coc add-alias FB = FooBar").as_deref(),
        Some("Alias added! **foobar** is now also known as **fb**!")
    );
    assert_eq!(
        run(&mut store, "!coc find fb").as_deref(),
        Some("I found **fb** (aka **foobar**)! ```Lore about foobar.```")
    );
    assert_eq!(
        run(&mut store, "!coc get-alias fb").as_deref(),
        Some("**fb** is also known as **foobar**.")
    );
    assert_eq!(
        run(&mut store, "!coc remove-alias fb").as_deref(),
        Some("Done! **fb** is not longer an alias! ^^b")
    );
    // with the alias gone, the lookup falls back to the dictionary directly
    assert_eq!(
        run(&mut store, "!coc find fb").as_deref(),
        Some("Sorry...I can't find what you are looking for >_<")
    );
}

#[test]
fn duplicate_add_alias_is_reported_and_keeps_one_row() {
    let mut store = AliasStore::new();
    assert_eq!(
        run(&mut store, "!coc add-alias fb = foobar").as_deref(),
        Some("Alias added! **foobar** is now also known as **fb**!")
    );
    assert_eq!(
        run(&mut store, "!coc add-alias fb = foobar").as_deref(),
        Some("Duplicate alias **fb** found! Please remove first with the *alias remove* command")
    );
    let rows = store.to_entries();
    assert_eq!(rows.iter().filter(|(k, _)| k == "fb").count(), 1);
}

#[test]
fn competing_adds_keep_the_first_target() {
    let mut store = AliasStore::new();
    assert_eq!(
        run(&mut store, "!coc add-alias es = foobar").as_deref(),
        Some("Alias added! **foobar** is now also known as **es**!")
    );
    // a competing add for the same alias with a different target loses
    assert_eq!(
        run(&mut store, "!coc add-alias es = elder sign").as_deref(),
        Some("Duplicate alias **es** found! Please remove first with the *alias remove* command")
    );
    assert_eq!(store.resolve("es").as_deref(), Some("foobar"));
    assert_eq!(store.to_entries().len(), 1);
}

#[test]
fn add_alias_unknown_target_is_rejected() {
    let mut store = AliasStore::new();
    assert_eq!(
        run(&mut store, "!coc add-alias fb = nothing").as_deref(),
        Some("Target not found! Are you sure the target name is correct?")
    );
    assert_eq!(store.to_entries().len(), 0);
}

#[test]
fn add_alias_malformed_yields_usage_help() {
    let mut store = AliasStore::new();
    let help = "```add-alias: Adds an alias to a 'find'\n\t> Usage: !coc add-alias <alias_name> = <target_name>\n\t(if success, you can then do '!necro, find <alias_name>')\nremove-alias: Removes an alias\n\t> Usage: !coc remove-alias <alias_name>\nget-alias: Displays an alias\n\t> Usage: !coc get-alias <alias_name>\n```";
    assert_eq!(run(&mut store, "!coc add-alias fb foobar").as_deref(), Some(help));
    assert_eq!(run(&mut store, "!coc add-alias fb =").as_deref(), Some(help));
    assert_eq!(run(&mut store, "!coc add-alias a = b = c").as_deref(), Some(help));
    assert_eq!(store.to_entries().len(), 0);
}

#[test]
fn remove_alias_missing_is_reported() {
    let mut store = AliasStore::new();
    assert_eq!(
        run(&mut store, "!coc remove-alias nope").as_deref(),
        Some("Sorry, I can't find an alias named **nope**...")
    );
}

#[test]
fn remove_alias_without_arguments_yields_usage_help() {
    let mut store = AliasStore::new();
    let reply = run(&mut store, "!coc remove-alias").unwrap();
    assert!(reply.starts_with("```add-alias:"));
}

#[test]
fn get_alias_missing_is_reported() {
    let mut store = AliasStore::new();
    assert_eq!(
        run(&mut store, "!coc get-alias nope").as_deref(),
        Some("Sorry, I can't find an alias named **nope**...")
    );
}

#[test]
fn underscore_verbs_are_accepted_too() {
    let mut store = AliasStore::new();
    assert_eq!(
        run(&mut store, "!coc add_alias fb = foobar").as_deref(),
        Some("Alias added! **foobar** is now also known as **fb**!")
    );
    assert_eq!(
        run(&mut store, "!coc get_alias fb").as_deref(),
        Some("**fb** is also known as **foobar**.")
    );
    assert_eq!(
        run(&mut store, "!coc remove_alias fb").as_deref(),
        Some("Done! **fb** is not longer an alias! ^^b")
    );
}

#[test]
fn stale_alias_reports_miss_on_find_but_shows_on_get() {
    // an alias whose target is no longer a dictionary key
    let mut store = AliasStore::from_entries(pairs(&[("fb", "gone")]));
    assert_eq!(
        run(&mut store, "!coc find fb").as_deref(),
        Some("Sorry...I can't find what you are looking for >_<")
    );
    assert_eq!(
        run(&mut store, "!coc get-alias fb").as_deref(),
        Some("**fb** is also known as **gone**.")
    );
}

#[test]
fn alias_shadows_direct_dictionary_key() {
    let mut store = AliasStore::new();
    assert_eq!(
        run(&mut store, "!coc add-alias foobar = elder sign").as_deref(),
        Some("Alias added! **elder sign** is now also known as **foobar**!")
    );
    assert_eq!(
        run(&mut store, "!coc find foobar").as_deref(),
        Some("I found **foobar** (aka **elder sign**)! ```A protective symbol.```")
    );
}
