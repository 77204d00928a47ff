use cerebras_rs::chat_message::Role;
use cerebras_rs::{ChatMessage, Client, Configuration, Error};

#[test]
fn test_client_creation() {
    let client = Client::new("test-key");
    assert_eq!(
        client.configuration().bearer_access_token,
        Some("test-key".to_string())
    );
}

#[test]
fn test_chat_message_helpers() {
    let system = ChatMessage::system("You are helpful");
    assert_eq!(system.role, Role::System);
    assert_eq!(system.content, "You are helpful");

    let user = ChatMessage::user("Hello");
    assert_eq!(user.role, Role::User);
    assert_eq!(user.content, "Hello");
}

#[test]
fn test_assistant() {
    let msg = ChatMessage::assistant("I am an assistant");
    assert_eq!(msg.role, Role::Assistant);
    assert_eq!(msg.content, "I am an assistant");
}

#[test]
fn test_configuration() {
    let mut config = Configuration::new();
    config.bearer_access_token = Some("custom-key".to_string());
    config.base_path = "https://custom.example.com".to_string();

    let client = Client::with_configuration(config);
    assert_eq!(client.configuration().base_path, "https://custom.example.com");
    assert_eq!(
        client.configuration().bearer_access_token,
        Some("custom-key".to_string())
    );
}

#[test]
fn test_new() {
    let client = Client::new("test-api-key");
    assert!(!client.configuration().base_path.is_empty());
    assert_eq!(
        client.configuration().bearer_access_token,
        Some("test-api-key".to_string())
    );
}

#[test]
fn test_system() {
    let msg = ChatMessage::system("You are a helpful assistant");
    assert_eq!(msg.role, Role::System);
    assert_eq!(msg.content, "You are a helpful assistant");
}

#[test]
fn test_tool() {
    let msg = ChatMessage::tool("Tool response", "tool-123");
    assert_eq!(msg.role, Role::Tool);
    assert_eq!(msg.content, "Tool response");
    assert_eq!(msg.tool_call_id, Some("tool-123".to_string()));
}

#[test]
fn test_user() {
    let msg = ChatMessage::user("Hello, assistant!");
    assert_eq!(msg.role, Role::User);
    assert_eq!(msg.content, "Hello, assistant!");
}

#[test]
fn test_with_base_url() {
    let client = Client::new("key").with_base_url("http://example.com".to_string());
    assert_eq!(client.configuration().base_path, "http://example.com");
    assert_eq!(
        client.configuration().bearer_access_token,
        Some("key".to_string())
    );
}

#[test]
fn test_with_configuration() {
    let config = Configuration::new();
    let client = Client::with_configuration(config);
    assert!(!client.configuration().base_path.is_empty());
}

#[test]
fn default_configuration_points_at_hosted_api() {
    let config = Configuration::new();
    assert_eq!(config.base_path, "https://api.cerebras.ai/v1");
    assert_eq!(config.bearer_access_token, None);
    assert_eq!(Configuration::default(), config);
}

#[test]
fn client_from_present_environment_value() {
    let client = Client::from_env_value(Some("abc".to_string())).unwrap();
    assert_eq!(
        client.configuration().bearer_access_token,
        Some("abc".to_string())
    );
    assert_eq!(client.configuration().base_path, "https://api.cerebras.ai/v1");
}

#[test]
fn client_from_absent_environment_value() {
    let error = Client::from_env_value(None).unwrap_err();
    assert_eq!(
        error,
        Error::Configuration("CEREBRAS_API_KEY environment variable not set".to_string())
    );
}
