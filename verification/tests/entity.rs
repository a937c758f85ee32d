use times_hub_api::entity::{ParseError, Workspace, WorkspaceId, WorkspaceType};

#[test]
fn workspace_id_keeps_its_integer() {
    assert_eq!(WorkspaceId::new(7).to_raw(), 7);
    assert_eq!(WorkspaceId::new(-3).to_raw(), -3);
    assert_eq!(WorkspaceId::default().to_raw(), 0);
    assert_eq!(WorkspaceId::new(120).to_string(), "120");
    assert_eq!(WorkspaceId::new(i32::MIN).to_string(), "-2147483648");
    assert!(WorkspaceId::new(2) < WorkspaceId::new(10));
}

#[test]
fn workspace_type_tokens_round_trip() {
    assert_eq!(WorkspaceType::Slack.to_string(), "slack");
    assert_eq!(WorkspaceType::Discord.to_string(), "discord");
    assert_eq!(WorkspaceType::from_str("slack"), Ok(WorkspaceType::Slack));
    assert_eq!(WorkspaceType::from_str("discord"), Ok(WorkspaceType::Discord));
}

#[test]
fn unknown_tokens_do_not_parse() {
    assert_eq!(WorkspaceType::from_str("teams"), Err(ParseError::VariantNotFound));
    assert_eq!(WorkspaceType::from_str("Slack"), Err(ParseError::VariantNotFound));
    assert_eq!(WorkspaceType::from_str(""), Err(ParseError::VariantNotFound));
    assert_eq!(WorkspaceType::from_str("slack "), Err(ParseError::VariantNotFound));
    assert_eq!("discord".parse::<WorkspaceType>(), Ok(WorkspaceType::Discord));
    assert_eq!(ParseError::VariantNotFound.to_string(), "Matching variant not found");
}

#[test]
fn workspace_new_keeps_every_field() {
    let ws = Workspace::new(
        WorkspaceId::new(3),
        "test workspace 3".to_string(),
        WorkspaceType::Slack,
        "https://example.com".to_string(),
    );
    assert_eq!(ws.id, WorkspaceId::new(3));
    assert_eq!(ws.name, "test workspace 3");
    assert_eq!(ws.ws_type, WorkspaceType::Slack);
    assert_eq!(ws.webhook_url, "https://example.com");
    assert_eq!(ws.clone(), ws);
}
