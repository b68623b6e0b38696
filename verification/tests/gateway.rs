use chatpete::gateway::{first_completion, first_image, GatewayError};

#[test]
fn first_completion_is_the_first_text() {
    let choices = vec![Some("four".to_string()), Some("five".to_string())];
    assert_eq!(first_completion(&choices), Ok("four".to_string()));
}

#[test]
fn first_completion_of_no_completion_fails() {
    assert_eq!(first_completion(&Vec::new()), Err(GatewayError::NoCompletion));
}

#[test]
fn first_completion_without_text_fails() {
    let choices = vec![None, Some("late".to_string())];
    assert_eq!(first_completion(&choices), Err(GatewayError::NoText));
}

#[test]
fn first_image_is_the_first_link() {
    let urls = vec!["https://a/1.png".to_string(), "https://a/2.png".to_string()];
    assert_eq!(first_image(&urls), Ok("https://a/1.png".to_string()));
}

#[test]
fn first_image_of_no_image_fails() {
    assert_eq!(first_image(&Vec::new()), Err(GatewayError::NoImage));
}

#[test]
fn gateway_errors_have_their_sentences() {
    assert_eq!(GatewayError::NoCompletion.message(), "the gateway returned no completion");
    assert_eq!(GatewayError::NoText.message(), "the completion of the gateway carries no text");
    assert_eq!(GatewayError::NoImage.message(), "the gateway returned no image");
}
