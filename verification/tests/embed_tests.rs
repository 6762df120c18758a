use rina::embed::{EmbedBuilder, EmbedField};

#[test]
fn field_is_named_and_not_inline() {
    let f = EmbedField::new("!help", "Explains all available commands");
    assert_eq!(f.name, "!help");
    assert_eq!(f.value, "Explains all available commands");
    assert!(!f.inline);
}

#[test]
fn builder_sets_title_and_description() {
    let e = EmbedBuilder::new()
        .title("!join")
        .description(String::from("Joined <#5>"))
        .build();
    assert!(!e.error);
    assert_eq!(e.title.as_deref(), Some("!join"));
    assert_eq!(e.description.as_deref(), Some("Joined <#5>"));
    assert!(e.fields.is_empty());
}

#[test]
fn error_builder_flags_the_embed() {
    let e = EmbedBuilder::error()
        .title("!skip")
        .description(String::from("Could not skip current track"))
        .build();
    assert!(e.error);
}

#[test]
fn builder_appends_fields() {
    let fields = vec![
        EmbedField::new("a", "1"),
        EmbedField::new("b", "2"),
    ];
    let e = EmbedBuilder::new().title("!help").fields(fields).build();
    assert_eq!(e.fields.len(), 2);
    assert_eq!(e.fields[0].name, "a");
    assert_eq!(e.fields[1].value, "2");
}

#[test]
fn default_builder_is_empty_and_normal() {
    let e = EmbedBuilder::default().build();
    assert!(!e.error);
    assert!(e.title.is_none());
    assert!(e.description.is_none());
    assert!(e.fields.is_empty());
}
