//! The command router: strips the configured prefix, splits a raw message
//! into a verb and arguments, dispatches to the matching handler, and
//! formats the reply. Unknown verbs and messages without the prefix are
//! silently ignored.

use vstd::prelude::*;
use vstd::string::StrSliceExecFns;
use vstd::string::StringExecFns;
use crate::dice::resist_reply;
use crate::dice::resist_reply_spec;
use crate::dict::Dictionary;
use crate::numbers::parse_i32;
use crate::numbers::parse_i32_spec;
use crate::store::AliasStore;
use crate::store::insert_map;
use crate::text::join_lower;
use crate::text::joined_lower;
use crate::text::split_on_sep;
use crate::text::split_sep;
use crate::text::split_words;
use crate::text::starts_with_spec;
use crate::text::str_eq;
use crate::text::str_starts_with;
use crate::text::words_spec;

verus! {

// ------------------------------------------------------------------
// Reply texts
// ------------------------------------------------------------------

pub open spec fn wrap_code(s: Seq<char>) -> Seq<char> {
    "```"@ + s + "```"@
}

pub open spec fn version_text() -> Seq<char> {
    "I'm CocBot v2.0.0, written in Rust!!"@
}

pub open spec fn help_resist_text() -> Seq<char> {
    "resist: Check CoC resistance!\n\t> Usage: !coc resist <active> vs <passive>\n"@
}

pub open spec fn help_find_text() -> Seq<char> {
    "find: Use this command to find something\n\t> Usage: !coc find <something>\n"@
}

pub open spec fn help_add_alias_text() -> Seq<char> {
    "add-alias: Adds an alias to a 'find'\n\t> Usage: !coc add-alias <alias_name> = <target_name>\n\t(if success, you can then do '!necro, find <alias_name>')\n"@
}

pub open spec fn help_remove_alias_text() -> Seq<char> {
    "remove-alias: Removes an alias\n\t> Usage: !coc remove-alias <alias_name>\n"@
}

pub open spec fn help_get_alias_text() -> Seq<char> {
    "get-alias: Displays an alias\n\t> Usage: !coc get-alias <alias_name>\n"@
}

/// The usage text shared by the three alias commands.
pub open spec fn help_alias_text() -> Seq<char> {
    help_add_alias_text() + help_remove_alias_text() + help_get_alias_text()
}

/// The full help text: every per-command usage string in order.
pub open spec fn help_all_text() -> Seq<char> {
    help_resist_text() + help_find_text() + help_add_alias_text() + help_remove_alias_text()
        + help_get_alias_text()
}

pub open spec fn found_reply(key: Seq<char>, value: Seq<char>) -> Seq<char> {
    "I found **"@ + key + "**! ```"@ + value + "```"@
}

pub open spec fn found_aka_reply(key: Seq<char>, aka: Seq<char>, value: Seq<char>) -> Seq<char> {
    "I found **"@ + key + "** (aka **"@ + aka + "**)! ```"@ + value + "```"@
}

pub open spec fn not_found_reply() -> Seq<char> {
    "Sorry...I can't find what you are looking for >_<"@
}

pub open spec fn no_alias_reply(name: Seq<char>) -> Seq<char> {
    "Sorry, I can't find an alias named **"@ + name + "**..."@
}

pub open spec fn removed_reply(name: Seq<char>) -> Seq<char> {
    "Done! **"@ + name + "** is not longer an alias! ^^b"@
}

pub open spec fn known_as_reply(name: Seq<char>, target: Seq<char>) -> Seq<char> {
    "**"@ + name + "** is also known as **"@ + target + "**."@
}

pub open spec fn target_not_found_reply() -> Seq<char> {
    "Target not found! Are you sure the target name is correct?"@
}

pub open spec fn duplicate_reply(alias: Seq<char>) -> Seq<char> {
    "Duplicate alias **"@ + alias + "** found! Please remove first with the *alias remove* command"@
}

pub open spec fn added_reply(target: Seq<char>, alias: Seq<char>) -> Seq<char> {
    "Alias added! **"@ + target + "** is now also known as **"@ + alias + "**!"@
}

// ------------------------------------------------------------------
// Command semantics
// ------------------------------------------------------------------

/// The two-step resolution of a normalized key: the alias store first,
/// then the dictionary directly. An alias whose target has left the
/// dictionary reports a plain miss.
pub open spec fn resolution_reply(
    key: Seq<char>,
    store: Map<Seq<char>, Seq<char>>,
    dict: Map<Seq<char>, Seq<char>>,
) -> Seq<char> {
    if store.contains_key(key) {
        if dict.contains_key(store[key]) {
            found_aka_reply(key, store[key], dict[store[key]])
        } else {
            not_found_reply()
        }
    } else {
        if dict.contains_key(key) {
            found_reply(key, dict[key])
        } else {
            not_found_reply()
        }
    }
}

pub open spec fn find_cmd_spec(
    args: Seq<Seq<char>>,
    store: Map<Seq<char>, Seq<char>>,
    dict: Map<Seq<char>, Seq<char>>,
) -> Seq<char> {
    if args.len() == 0 {
        wrap_code(help_find_text())
    } else {
        resolution_reply(joined_lower(args), store, dict)
    }
}

pub open spec fn resist_cmd_spec(args: Seq<Seq<char>>) -> Seq<char> {
    if args.len() != 3 {
        wrap_code(help_resist_text())
    } else {
        match (parse_i32_spec(args[0]), parse_i32_spec(args[2])) {
            (Some(a), Some(p)) => if args[1] == "vs"@ {
                resist_reply_spec(a as int, p as int)
            } else {
                wrap_code(help_resist_text())
            },
            _ => wrap_code(help_resist_text()),
        }
    }
}

pub open spec fn get_alias_cmd_spec(
    args: Seq<Seq<char>>,
    store: Map<Seq<char>, Seq<char>>,
) -> Seq<char> {
    if args.len() == 0 {
        wrap_code(help_alias_text())
    } else {
        let name = joined_lower(args);
        if store.contains_key(name) {
            known_as_reply(name, store[name])
        } else {
            no_alias_reply(name)
        }
    }
}

pub open spec fn remove_alias_reply_spec(
    args: Seq<Seq<char>>,
    store: Map<Seq<char>, Seq<char>>,
) -> Seq<char> {
    if args.len() == 0 {
        wrap_code(help_alias_text())
    } else {
        let name = joined_lower(args);
        if store.contains_key(name) {
            removed_reply(name)
        } else {
            no_alias_reply(name)
        }
    }
}

pub open spec fn remove_alias_store_spec(
    args: Seq<Seq<char>>,
    store: Map<Seq<char>, Seq<char>>,
) -> Map<Seq<char>, Seq<char>> {
    if args.len() == 0 {
        store
    } else {
        store.remove(joined_lower(args))
    }
}

/// The alias and target named by an `add-alias` argument list: the
/// normalized arguments split on the literal `" = "` separator.
pub open spec fn add_alias_parts(args: Seq<Seq<char>>) -> Seq<Seq<char>> {
    split_sep(joined_lower(args))
}

/// A well-formed `add-alias` invocation: more than two tokens whose
/// normalized join splits on `" = "` into exactly two non-empty parts.
pub open spec fn add_alias_valid(args: Seq<Seq<char>>) -> bool {
    args.len() > 2 && add_alias_parts(args).len() == 2 && add_alias_parts(args)[0].len() > 0
        && add_alias_parts(args)[1].len() > 0
}

pub open spec fn add_alias_reply_spec(
    args: Seq<Seq<char>>,
    store: Map<Seq<char>, Seq<char>>,
    dict: Map<Seq<char>, Seq<char>>,
) -> Seq<char> {
    if !add_alias_valid(args) {
        wrap_code(help_alias_text())
    } else {
        let alias = add_alias_parts(args)[0];
        let target = add_alias_parts(args)[1];
        if !dict.contains_key(target) {
            target_not_found_reply()
        } else if store.contains_key(alias) {
            duplicate_reply(alias)
        } else {
            added_reply(target, alias)
        }
    }
}

pub open spec fn add_alias_store_spec(
    args: Seq<Seq<char>>,
    store: Map<Seq<char>, Seq<char>>,
    dict: Map<Seq<char>, Seq<char>>,
) -> Map<Seq<char>, Seq<char>> {
    if add_alias_valid(args) && dict.contains_key(add_alias_parts(args)[1]) {
        insert_map(store, add_alias_parts(args)[0], add_alias_parts(args)[1])
    } else {
        store
    }
}

// ------------------------------------------------------------------
// Routing
// ------------------------------------------------------------------

/// The verbs the router answers to; everything else is ignored.
pub open spec fn known_verb(v: Seq<char>) -> bool {
    v == "version"@ || v == "resist"@ || v == "help"@ || v == "find"@ || v == "add_alias"@ || v
        == "add-alias"@ || v == "remove_alias"@ || v == "remove-alias"@ || v == "get_alias"@ || v
        == "get-alias"@
}

/// The tokens of a message that starts with the prefix; empty otherwise.
pub open spec fn message_tokens(prefix: Seq<char>, text: Seq<char>) -> Seq<Seq<char>> {
    if starts_with_spec(text, prefix) {
        words_spec(text.skip(prefix.len() as int))
    } else {
        Seq::empty()
    }
}

/// A message produces a reply only when it carries the prefix, a verb
/// follows, and the verb is registered.
pub open spec fn routes(prefix: Seq<char>, text: Seq<char>) -> bool {
    starts_with_spec(text, prefix) && message_tokens(prefix, text).len() > 0 && known_verb(
        message_tokens(prefix, text)[0],
    )
}

/// The reply to a raw message: `None` is silence.
pub open spec fn route_reply_spec(
    prefix: Seq<char>,
    text: Seq<char>,
    store: Map<Seq<char>, Seq<char>>,
    dict: Map<Seq<char>, Seq<char>>,
) -> Option<Seq<char>> {
    if !routes(prefix, text) {
        None
    } else {
        let verb = message_tokens(prefix, text)[0];
        let args = message_tokens(prefix, text).drop_first();
        if verb == "version"@ {
            Some(version_text())
        } else if verb == "help"@ {
            Some(wrap_code(help_all_text()))
        } else if verb == "resist"@ {
            Some(resist_cmd_spec(args))
        } else if verb == "find"@ {
            Some(find_cmd_spec(args, store, dict))
        } else if verb == "add_alias"@ || verb == "add-alias"@ {
            Some(add_alias_reply_spec(args, store, dict))
        } else if verb == "remove_alias"@ || verb == "remove-alias"@ {
            Some(remove_alias_reply_spec(args, store))
        } else {
            Some(get_alias_cmd_spec(args, store))
        }
    }
}

/// The alias store a raw message leaves behind.
pub open spec fn route_store_spec(
    prefix: Seq<char>,
    text: Seq<char>,
    store: Map<Seq<char>, Seq<char>>,
    dict: Map<Seq<char>, Seq<char>>,
) -> Map<Seq<char>, Seq<char>> {
    if !routes(prefix, text) {
        store
    } else {
        let verb = message_tokens(prefix, text)[0];
        let args = message_tokens(prefix, text).drop_first();
        if verb == "add_alias"@ || verb == "add-alias"@ {
            add_alias_store_spec(args, store, dict)
        } else if verb == "remove_alias"@ || verb == "remove-alias"@ {
            remove_alias_store_spec(args, store)
        } else {
            store
        }
    }
}

// ------------------------------------------------------------------
// Reply builders
// ------------------------------------------------------------------

/// The static version reply.
pub fn version_reply() -> (r: String)
    ensures
        r@ == version_text(),
{
    String::from_str("I'm CocBot v2.0.0, written in Rust!!")
}

/// The full help reply.
pub fn help_reply() -> (r: String)
    ensures
        r@ == wrap_code(help_all_text()),
{
    let mut r = String::from_str("```");
    r.append("resist: Check CoC resistance!\n\t> Usage: !coc resist <active> vs <passive>\n");
    r.append("find: Use this command to find something\n\t> Usage: !coc find <something>\n");
    r.append(
        "add-alias: Adds an alias to a 'find'\n\t> Usage: !coc add-alias <alias_name> = <target_name>\n\t(if success, you can then do '!necro, find <alias_name>')\n",
    );
    r.append("remove-alias: Removes an alias\n\t> Usage: !coc remove-alias <alias_name>\n");
    r.append("get-alias: Displays an alias\n\t> Usage: !coc get-alias <alias_name>\n");
    r.append("```");
    proof {
        assert(r@ =~= wrap_code(help_all_text()));
    }
    r
}

fn resist_help() -> (r: String)
    ensures
        r@ == wrap_code(help_resist_text()),
{
    let mut r = String::from_str("```");
    r.append("resist: Check CoC resistance!\n\t> Usage: !coc resist <active> vs <passive>\n");
    r.append("```");
    proof {
        assert(r@ =~= wrap_code(help_resist_text()));
    }
    r
}

fn find_help() -> (r: String)
    ensures
        r@ == wrap_code(help_find_text()),
{
    let mut r = String::from_str("```");
    r.append("find: Use this command to find something\n\t> Usage: !coc find <something>\n");
    r.append("```");
    proof {
        assert(r@ =~= wrap_code(help_find_text()));
    }
    r
}

fn alias_help() -> (r: String)
    ensures
        r@ == wrap_code(help_alias_text()),
{
    let mut r = String::from_str("```");
    r.append(
        "add-alias: Adds an alias to a 'find'\n\t> Usage: !coc add-alias <alias_name> = <target_name>\n\t(if success, you can then do '!necro, find <alias_name>')\n",
    );
    r.append("remove-alias: Removes an alias\n\t> Usage: !coc remove-alias <alias_name>\n");
    r.append("get-alias: Displays an alias\n\t> Usage: !coc get-alias <alias_name>\n");
    r.append("```");
    proof {
        assert(r@ =~= wrap_code(help_alias_text()));
    }
    r
}

fn found_reply_exec(key: &str, value: &str) -> (r: String)
    ensures
        r@ == found_reply(key@, value@),
{
    let mut r = String::from_str("I found **");
    r.append(key);
    r.append("**! ```");
    r.append(value);
    r.append("```");
    proof {
        assert(r@ =~= found_reply(key@, value@));
    }
    r
}

fn found_aka_reply_exec(key: &str, aka: &str, value: &str) -> (r: String)
    ensures
        r@ == found_aka_reply(key@, aka@, value@),
{
    let mut r = String::from_str("I found **");
    r.append(key);
    r.append("** (aka **");
    r.append(aka);
    r.append("**)! ```");
    r.append(value);
    r.append("```");
    proof {
        assert(r@ =~= found_aka_reply(key@, aka@, value@));
    }
    r
}

fn not_found_exec() -> (r: String)
    ensures
        r@ == not_found_reply(),
{
    String::from_str("Sorry...I can't find what you are looking for >_<")
}

fn no_alias_exec(name: &str) -> (r: String)
    ensures
        r@ == no_alias_reply(name@),
{
    let mut r = String::from_str("Sorry, I can't find an alias named **");
    r.append(name);
    r.append("**...");
    proof {
        assert(r@ =~= no_alias_reply(name@));
    }
    r
}

fn removed_exec(name: &str) -> (r: String)
    ensures
        r@ == removed_reply(name@),
{
    let mut r = String::from_str("Done! **");
    r.append(name);
    r.append("** is not longer an alias! ^^b");
    proof {
        assert(r@ =~= removed_reply(name@));
    }
    r
}

fn known_as_exec(name: &str, target: &str) -> (r: String)
    ensures
        r@ == known_as_reply(name@, target@),
{
    let mut r = String::from_str("**");
    r.append(name);
    r.append("** is also known as **");
    r.append(target);
    r.append("**.");
    proof {
        assert(r@ =~= known_as_reply(name@, target@));
    }
    r
}

fn duplicate_exec(alias: &str) -> (r: String)
    ensures
        r@ == duplicate_reply(alias@),
{
    let mut r = String::from_str("Duplicate alias **");
    r.append(alias);
    r.append("** found! Please remove first with the *alias remove* command");
    proof {
        assert(r@ =~= duplicate_reply(alias@));
    }
    r
}

fn added_exec(target: &str, alias: &str) -> (r: String)
    ensures
        r@ == added_reply(target@, alias@),
{
    let mut r = String::from_str("Alias added! **");
    r.append(target);
    r.append("** is now also known as **");
    r.append(alias);
    r.append("**!");
    proof {
        assert(r@ =~= added_reply(target@, alias@));
    }
    r
}

// ------------------------------------------------------------------
// Handlers
// ------------------------------------------------------------------

/// The `resist` command: two integers around a literal `vs`.
pub fn resist_cmd(args: &Vec<String>) -> (r: String)
    ensures
        r@ == resist_cmd_spec(args.deep_view()),
{
    if args.len() != 3 {
        return resist_help();
    }
    proof {
        assert(args.deep_view()[0] == args@[0]@);
        assert(args.deep_view()[1] == args@[1]@);
        assert(args.deep_view()[2] == args@[2]@);
    }
    let active = match parse_i32(args[0].as_str()) {
        Some(x) => x,
        None => {
            return resist_help();
        },
    };
    if !str_eq(args[1].as_str(), "vs") {
        return resist_help();
    }
    let passive = match parse_i32(args[2].as_str()) {
        Some(x) => x,
        None => {
            return resist_help();
        },
    };
    resist_reply(active, passive)
}

/// The `find` command: alias-then-dictionary resolution.
pub fn find_cmd(args: &Vec<String>, store: &AliasStore, dict: &Dictionary) -> (r: String)
    requires
        store.wf(),
        dict.wf(),
    ensures
        r@ == find_cmd_spec(args.deep_view(), store@, dict@),
{
    if args.len() == 0 {
        return find_help();
    }
    let key = join_lower(args);
    match store.resolve(key.as_str()) {
        Some(aka) => {
            match dict.lookup(aka.as_str()) {
                Some(value) => found_aka_reply_exec(key.as_str(), aka.as_str(), value.as_str()),
                None => not_found_exec(),
            }
        },
        None => {
            match dict.lookup(key.as_str()) {
                Some(value) => found_reply_exec(key.as_str(), value.as_str()),
                None => not_found_exec(),
            }
        },
    }
}

/// The `get-alias` command: shows what an alias maps to.
pub fn get_alias_cmd(args: &Vec<String>, store: &AliasStore) -> (r: String)
    requires
        store.wf(),
    ensures
        r@ == get_alias_cmd_spec(args.deep_view(), store@),
{
    if args.len() == 0 {
        return alias_help();
    }
    let name = join_lower(args);
    match store.resolve(name.as_str()) {
        Some(target) => known_as_exec(name.as_str(), target.as_str()),
        None => no_alias_exec(name.as_str()),
    }
}

/// The `remove-alias` command.
pub fn remove_alias_cmd(args: &Vec<String>, store: &mut AliasStore) -> (r: String)
    requires
        old(store).wf(),
    ensures
        final(store).wf(),
        final(store)@ == remove_alias_store_spec(args.deep_view(), old(store)@),
        r@ == remove_alias_reply_spec(args.deep_view(), old(store)@),
{
    if args.len() == 0 {
        return alias_help();
    }
    let name = join_lower(args);
    let n = store.remove(name.as_str());
    if n == 0 {
        no_alias_exec(name.as_str())
    } else {
        removed_exec(name.as_str())
    }
}

/// The `add-alias` command: validates the argument shape, requires the
/// target to be a dictionary key, and reports a duplicate without
/// overwriting.
pub fn add_alias_cmd(args: &Vec<String>, dict: &Dictionary, store: &mut AliasStore) -> (r: String)
    requires
        old(store).wf(),
        dict.wf(),
    ensures
        final(store).wf(),
        final(store)@ == add_alias_store_spec(args.deep_view(), old(store)@, dict@),
        r@ == add_alias_reply_spec(args.deep_view(), old(store)@, dict@),
{
    if args.len() <= 2 {
        return alias_help();
    }
    let joined = join_lower(args);
    let parts = split_on_sep(joined.as_str());
    proof {
        assert(parts.deep_view() == add_alias_parts(args.deep_view()));
    }
    if parts.len() != 2 {
        return alias_help();
    }
    proof {
        assert(parts.deep_view()[0] == parts@[0]@);
        assert(parts.deep_view()[1] == parts@[1]@);
    }
    if parts[0].as_str().is_empty() || parts[1].as_str().is_empty() {
        return alias_help();
    }
    let alias = &parts[0];
    let target = &parts[1];
    if !dict.contains(target.as_str()) {
        return target_not_found_exec();
    }
    let n = store.insert(alias.as_str(), target.as_str());
    if n == 0 {
        duplicate_exec(alias.as_str())
    } else {
        added_exec(target.as_str(), alias.as_str())
    }
}

fn target_not_found_exec() -> (r: String)
    ensures
        r@ == target_not_found_reply(),
{
    String::from_str("Target not found! Are you sure the target name is correct?")
}

/// Handles one raw message end to end: prefix check, tokenization,
/// dispatch, and reply formatting. `None` is silence.
pub fn handle_message(prefix: &str, text: &str, dict: &Dictionary, store: &mut AliasStore) -> (r:
    Option<String>)
    requires
        old(store).wf(),
        dict.wf(),
    ensures
        final(store).wf(),
        final(store)@ == route_store_spec(prefix@, text@, old(store)@, dict@),
        (r is Some) == (route_reply_spec(prefix@, text@, old(store)@, dict@) is Some),
        r matches Some(reply) ==> route_reply_spec(prefix@, text@, old(store)@, dict@) == Some(
            reply@,
        ),
{
    if !str_starts_with(text, prefix) {
        return None;
    }
    let pn = prefix.unicode_len();
    let n = text.unicode_len();
    let rest = text.substring_char(pn, n);
    assert(rest@ =~= text@.skip(prefix@.len() as int));
    let mut tokens = split_words(rest);
    if tokens.len() == 0 {
        assert(!routes(prefix@, text@));
        return None;
    }
    let ghost ts = message_tokens(prefix@, text@);
    proof {
        reveal_strlit("version");
        reveal_strlit("help");
        reveal_strlit("resist");
        reveal_strlit("find");
        reveal_strlit("add_alias");
        reveal_strlit("add-alias");
        reveal_strlit("remove_alias");
        reveal_strlit("remove-alias");
        reveal_strlit("get_alias");
        reveal_strlit("get-alias");
    }
    let verb = tokens.remove(0);
    let args = tokens;
    proof {
        assert(verb@ == ts[0]);
        assert(args.deep_view() =~= ts.drop_first());
    }
    if str_eq(verb.as_str(), "version") {
        Some(version_reply())
    } else if str_eq(verb.as_str(), "help") {
        Some(help_reply())
    } else if str_eq(verb.as_str(), "resist") {
        Some(resist_cmd(&args))
    } else if str_eq(verb.as_str(), "find") {
        Some(find_cmd(&args, store, dict))
    } else if str_eq(verb.as_str(), "add_alias") || str_eq(verb.as_str(), "add-alias") {
        Some(add_alias_cmd(&args, dict, store))
    } else if str_eq(verb.as_str(), "remove_alias") || str_eq(verb.as_str(), "remove-alias") {
        Some(remove_alias_cmd(&args, store))
    } else if str_eq(verb.as_str(), "get_alias") || str_eq(verb.as_str(), "get-alias") {
        Some(get_alias_cmd(&args, store))
    } else {
        assert(!known_verb(ts[0]));
        None
    }
}

// ------------------------------------------------------------------
// Laws
// ------------------------------------------------------------------

/// After a successful `add-alias x = y`, a `find` of `x` reports `y`'s
/// content under "aka" and a `get-alias` of `x` reports `y`; after a
/// `remove-alias` of `x` the store is back to where it started and a
/// `find` of `x` falls back to the direct dictionary lookup of `x`.
pub proof fn lemma_alias_round_trip(
    store: Map<Seq<char>, Seq<char>>,
    dict: Map<Seq<char>, Seq<char>>,
    x: Seq<char>,
    y: Seq<char>,
)
    requires
        dict.contains_key(y),
        !store.contains_key(x),
    ensures
        ({
            let added = insert_map(store, x, y);
            added.contains_key(x) && added[x] == y && resolution_reply(x, added, dict)
                == found_aka_reply(x, y, dict[y]) && added.remove(x) == store && resolution_reply(
                x,
                added.remove(x),
                dict,
            ) == resolution_reply(x, store, dict)
        }),
{
    let added = insert_map(store, x, y);
    assert(added.remove(x) =~= store);
}

/// `find` resolves two argument lists identically whenever their
/// normalized (lowercased, space-joined) keys agree: resolution is
/// insensitive to the case of the lookup words.
pub proof fn lemma_find_case_insensitive(
    a: Seq<Seq<char>>,
    b: Seq<Seq<char>>,
    store: Map<Seq<char>, Seq<char>>,
    dict: Map<Seq<char>, Seq<char>>,
)
    requires
        a.len() > 0,
        b.len() > 0,
        joined_lower(a) == joined_lower(b),
    ensures
        find_cmd_spec(a, store, dict) == find_cmd_spec(b, store, dict),
{
}

/// A message without the configured prefix, or whose first token is not a
/// registered verb, produces no reply and leaves the store untouched.
pub proof fn lemma_routing_silence(
    prefix: Seq<char>,
    text: Seq<char>,
    store: Map<Seq<char>, Seq<char>>,
    dict: Map<Seq<char>, Seq<char>>,
)
    requires
        !starts_with_spec(text, prefix) || message_tokens(prefix, text).len() == 0 || !known_verb(
            message_tokens(prefix, text)[0],
        ),
    ensures
        route_reply_spec(prefix, text, store, dict) is None,
        route_store_spec(prefix, text, store, dict) == store,
{
}

} // verus!
