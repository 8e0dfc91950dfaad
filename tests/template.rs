use versa::error::PromptError;
use versa::prompt::{join_parts, PromptList};
use versa::tag::{role_of, Role, Tag};
use versa::traits::FinalizablePrompt;
use versa::pattern::Pattern;
use versa::template::{chars_of, contains_placeholder, replace_placeholder, same_text, valid_name};

#[test]
fn placeholder_detection_follows_the_grammar() {
    let yes = ["{{a}}", "x {{A_9}} y", "{{_}}", "{{{x}}}", "{{ab}}}}"];
    let no = ["{{}}", "{{9}}", "{{a b}}", "{{a}", "{a}}", "{{name!", "{{na-me}}", "{{é}}"];
    for t in yes {
        assert!(contains_placeholder(&chars_of(t)), "{t}");
    }
    for t in no {
        assert!(!contains_placeholder(&chars_of(t)), "{t}");
    }
}

#[test]
fn names_must_be_identifiers() {
    assert!(valid_name("name"));
    assert!(valid_name("_x1"));
    assert!(!valid_name(""));
    assert!(!valid_name("1x"));
    assert!(!valid_name("a.b"));
}

#[test]
fn replacement_is_literal_and_leaves_other_names() {
    assert_eq!(replace_placeholder("{{a}}{{ab}}{{a}}", "a", "<>"), "<>{{ab}}<>");
    assert_eq!(replace_placeholder("héllo {{x}} wörld", "x", "ü"), "héllo ü wörld");
    assert_eq!(replace_placeholder("{{{{x}}}}", "x", "y"), "{{y}}");
    assert_eq!(replace_placeholder("none here", "x", "y"), "none here");
}

#[test]
fn text_comparison() {
    assert!(same_text("abc", "abc"));
    assert!(!same_text("abc", "abd"));
    assert!(!same_text("ab", "abc"));
    assert!(same_text("", ""));
}

#[test]
fn parts_join_in_order() {
    assert_eq!(join_parts(&["a", "", "bc"]), "abc");
    assert_eq!(join_parts(&[]), "");
}

#[test]
fn first_role_tag_wins_and_user_is_the_default() {
    assert_eq!(role_of(&vec![]), Role::User);
    assert_eq!(role_of(&vec![Tag::Pattern(Pattern::new("p"))]), Role::User);
    assert_eq!(
        role_of(&vec![Tag::Pattern(Pattern::new("p")), Tag::Role(Role::Assistant), Tag::Role(Role::System)]),
        Role::Assistant
    );
}

#[test]
fn transcript_lists_roles_and_texts() {
    let mut list = PromptList::new("S", vec![Tag::Role(Role::System)]);
    list.add_message("U", vec![]);
    list.add_message("A", vec![Tag::Pattern(Pattern::new("p")), Tag::Role(Role::Assistant)]);
    let resolved = list.finalize().unwrap();
    assert_eq!(resolved.to_transcript(), "system: S\nuser: U\nassistant: A\n");
}

#[test]
fn plain_strings_resolve_like_prompts() {
    let mut s = String::from("Hi {{who}}");
    assert!(s.has_unresolved_vars().unwrap());
    s.resolve_var("who", "you").unwrap();
    assert_eq!(s, "Hi you");
    let resolved = s.finalize().unwrap();
    assert_eq!(resolved.text(), "Hi you");
    let open = String::from("{{left}}");
    assert_eq!(open.finalize().err(), Some(PromptError::UnresolvedVars));
}

#[test]
fn patterns_match_by_identifier() {
    let p = Pattern::new("greet");
    assert!(p.matches(&Pattern::new("greet")));
    assert!(!p.matches(&Pattern::new("Greet")));
    assert_eq!(p.clone().id(), "greet");
}
