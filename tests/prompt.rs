use versa::error::PromptError;
use versa::pattern::Pattern;
use versa::prompt::{Prompt, PromptData, PromptList, ResolvedPrompt};
use versa::tag::{Role, Tag};
use versa::traits::{FinalizablePrompt, FinalizedPrompt};

#[test]
fn test_can_check_unresolved_prompts() {
    let prompt = Prompt::new("Hello {{name}}!");
    assert!(prompt.has_unresolved_vars().unwrap());

    let prompt = PromptList::new(
        "You are a helpful AI assistant that help users to {{job}}!",
        vec![Tag::Role(Role::System)],
    );
    assert!(prompt.has_unresolved_vars().unwrap());
}

#[test]
fn test_resolved_prompt_conversion_succeeds() {
    let prompt = PromptList::new("Hello World!", vec![]);
    assert!(!prompt.has_unresolved_vars().unwrap());

    let prompt = PromptList::new("Hello {{name!", vec![]);
    assert!(!prompt.has_unresolved_vars().unwrap());

    let result = prompt.finalize();
    assert!(result.is_ok());
}

#[test]
fn test_can_resolve_variables() {
    let mut prompt = Prompt::new("Hello {{name}}! What is your {{question}}?");
    prompt
        .format(&[("name", "ChatGPT"), ("question", "favorite color")])
        .unwrap();

    assert_eq!(
        String::from(prompt),
        "Hello ChatGPT! What is your favorite color?"
    );

    let mut prompt = PromptList::new("Hello {{name}}! What is your {{question}}?", vec![]);
    prompt
        .format(&[("name", "ChatGPT"), ("question", "favorite color")])
        .unwrap();

    let (message, _) = prompt.iter().next().unwrap();
    assert_eq!(message, "Hello ChatGPT! What is your favorite color?");
}

#[test]
fn text_without_braces_has_no_unresolved_vars() {
    for text in ["", "plain text", "{ name }", "}} then {{", "{{}}", "{{1abc}}", "{{a b}}"] {
        assert!(!Prompt::new(text).has_unresolved_vars().unwrap(), "{text}");
    }
    assert!(Prompt::new("x{{_a1}}y").has_unresolved_vars().unwrap());
    assert!(Prompt::new("{{{{a}}}}").has_unresolved_vars().unwrap());
}

#[test]
fn resolve_var_replaces_every_occurrence_in_order() {
    let mut prompt = Prompt::new("{{n}}, {{m}} and {{n}}{{n}}.");
    prompt.resolve_var("n", "X").unwrap();
    assert_eq!(prompt.text(), "X, {{m}} and XX.");
}

#[test]
fn resolve_var_twice_changes_nothing_more() {
    let mut prompt = Prompt::new("Dear {{who}}, hi {{who}}");
    prompt.resolve_var("who", "Ann").unwrap();
    let once = prompt.text().to_string();
    prompt.resolve_var("who", "Ann").unwrap();
    assert_eq!(prompt.text(), once);
    assert_eq!(once, "Dear Ann, hi Ann");
}

#[test]
fn resolve_var_rejects_a_malformed_name() {
    let mut prompt = Prompt::new("Hello {{a-b}} {{name}}");
    assert_eq!(prompt.resolve_var("a-b", "x"), Err(PromptError::InvalidVariable));
    assert_eq!(prompt.resolve_var("", "x"), Err(PromptError::InvalidVariable));
    assert_eq!(prompt.resolve_var("9a", "x"), Err(PromptError::InvalidVariable));
    assert_eq!(prompt.text(), "Hello {{a-b}} {{name}}");
}

#[test]
fn resolve_var_leaves_dollar_signs_as_they_are() {
    let mut prompt = Prompt::new("cost: {{price}}");
    prompt.resolve_var("price", "$1 and $name").unwrap();
    assert_eq!(prompt.text(), "cost: $1 and $name");
}

#[test]
fn format_takes_the_last_binding_of_a_name() {
    let mut prompt = Prompt::new("{{a}} {{b}}");
    prompt
        .format(&[("a", "first"), ("b", "B"), ("a", "last")])
        .unwrap();
    assert_eq!(prompt.text(), "last B");
}

#[test]
fn format_with_a_bad_name_changes_nothing() {
    let mut prompt = Prompt::new("{{a}} {{b}}");
    let r = prompt.format(&[("a", "A"), ("b c", "B")]);
    assert_eq!(r, Err(PromptError::InvalidVariable));
    assert_eq!(prompt.text(), "{{a}} {{b}}");
}

#[test]
fn resolve_without_binding_fails_with_unresolved_vars() {
    let prompt = Prompt::new("Hello {{name}}!");
    assert_eq!(prompt.resolve(&[]).err(), Some(PromptError::UnresolvedVars));
    let prompt = Prompt::new("Hello {{name}}!");
    assert_eq!(prompt.finalize().err(), Some(PromptError::UnresolvedVars));
}

#[test]
fn format_then_resolve_gives_the_filled_text() {
    let prompt = Prompt::new("Hello {{name}}! What is your {{question}}?");
    let resolved: ResolvedPrompt = prompt
        .resolve(&[("name", "ChatGPT"), ("question", "favorite color")])
        .unwrap();
    assert_eq!(resolved.text(), "Hello ChatGPT! What is your favorite color?");
    assert_eq!(
        String::from(resolved),
        "Hello ChatGPT! What is your favorite color?"
    );
}

#[test]
fn malformed_placeholder_resolves_unchanged() {
    let prompt = Prompt::new("Hello {{name!");
    assert!(!prompt.has_unresolved_vars().unwrap());
    let resolved = prompt.finalize().unwrap();
    assert_eq!(resolved.text(), "Hello {{name!");
}

#[test]
fn role_builder_keeps_order_roles_and_texts() {
    let prompt = PromptList::from_role_messages(&[
        (Role::System, "S"),
        (Role::User, "U1"),
        (Role::Assistant, "A1"),
        (Role::User, "U2"),
    ]);
    assert_eq!(prompt.len(), 4);
    let expected = [
        (Role::System, "S"),
        (Role::User, "U1"),
        (Role::Assistant, "A1"),
        (Role::User, "U2"),
    ];
    let mut it = prompt.iter();
    for (role, text) in expected {
        let (t, tags) = it.next().unwrap();
        assert_eq!(t, text);
        assert_eq!(tags.len(), 1);
        assert!(matches!(tags[0], Tag::Role(r) if r == role));
    }
    assert!(it.next().is_none());
}

#[test]
fn joined_parts_make_one_message() {
    let prompt = Prompt::from_parts(&["What is a good name for ", "a company that makes {{product}}?"]);
    assert_eq!(
        prompt.text(),
        "What is a good name for a company that makes {{product}}?"
    );
    let mut list: PromptList = PromptData::default();
    assert_eq!(list.len(), 0);
    list.add_message(prompt.text(), vec![Tag::Role(Role::System)]);
    assert_eq!(list.len(), 1);
}

#[test]
fn list_resolution_keeps_tags_and_positions() {
    let mut list = PromptList::new("You help with {{job}}.", vec![Tag::Role(Role::System)]);
    list.add_message("I need {{job}} now", vec![Tag::Pattern(Pattern::new("p")), Tag::Role(Role::User)]);
    list.resolve_var("job", "taxes").unwrap();
    let resolved = list.finalize().unwrap();
    let messages = resolved.into_messages();
    assert_eq!(messages[0].0, "You help with taxes.");
    assert!(matches!(messages[0].1[0], Tag::Role(Role::System)));
    assert_eq!(messages[1].0, "I need taxes now");
    assert!(matches!(&messages[1].1[0], Tag::Pattern(p) if p.id() == "p"));
    assert_eq!(messages[1].1.len(), 2);
}

#[test]
fn list_with_one_unresolved_message_fails_to_finalize() {
    let mut list = PromptList::new("fine", vec![]);
    list.add_message("still {{open}}", vec![]);
    assert_eq!(list.finalize().err(), Some(PromptError::UnresolvedVars));
}

#[test]
fn pattern_selects_tagged_messages() {
    let mut list = PromptList::new("a", vec![Tag::Pattern(Pattern::new("x"))]);
    list.add_message("b", vec![Tag::Role(Role::User)]);
    list.add_message("c", vec![Tag::Role(Role::User), Tag::Pattern(Pattern::new("x"))]);
    let resolved = list.finalize().unwrap();
    let picked = resolved.get_prompt_by_pattern(&Pattern::new("x")).unwrap();
    let texts: Vec<&str> = picked.iter().map(|(t, _)| t.as_str()).collect();
    assert_eq!(texts, vec!["a", "c"]);
}

#[test]
fn unknown_pattern_falls_back_to_all_messages() {
    let mut list = PromptList::new("a", vec![Tag::Pattern(Pattern::new("x"))]);
    list.add_message("b", vec![]);
    let resolved = list.finalize().unwrap();
    let picked = resolved.get_prompt_by_pattern(&Pattern::new("y")).unwrap();
    let texts: Vec<&str> = picked.iter().map(|(t, _)| t.as_str()).collect();
    assert_eq!(texts, vec!["a", "b"]);
}

#[test]
fn single_prompt_pattern_lookup_gives_its_message() {
    let resolved = Prompt::new("only").finalize().unwrap();
    let picked = resolved.get_prompt_by_pattern(&Pattern::new("any")).unwrap();
    assert_eq!(picked.len(), 1);
    assert_eq!(picked[0].0, "only");
    assert!(picked[0].1.is_empty());
}

#[test]
fn role_names_are_lowercase() {
    assert_eq!(Role::System.name(), "system");
    assert_eq!(Role::User.name(), "user");
    assert_eq!(Role::Assistant.name(), "assistant");
}

#[test]
fn error_messages_describe_the_error() {
    assert_eq!(
        PromptError::UnresolvedVars.message(),
        "Prompt contains unresolved variables."
    );
    assert!(!PromptError::InvalidVariable.message().is_empty());
}
