use journai::completion::completion_text;
use journai::completion::first_choice_text;
use journai::completion::CompletionOutcome;
use journai::error::CreateJournalEntryError;

#[test]
fn the_text_of_the_first_choice_is_taken() {
    let choices = vec![Some("one".to_string()), Some("two".to_string())];
    assert_eq!(first_choice_text(&choices), Some("one".to_string()));
}

#[test]
fn no_choice_gives_no_text() {
    assert_eq!(first_choice_text(&vec![]), None);
}

#[test]
fn a_first_choice_without_text_gives_no_text_whatever_follows() {
    let choices = vec![None, Some("two".to_string())];
    assert_eq!(first_choice_text(&choices), None);
}

#[test]
fn an_empty_text_is_still_a_text() {
    assert_eq!(first_choice_text(&vec![Some(String::new())]), Some(String::new()));
}

#[test]
fn an_answer_with_a_text_gives_the_text() {
    let outcome = CompletionOutcome::Answered(vec![Some("{}".to_string())]);
    assert_eq!(completion_text(&outcome), Ok("{}".to_string()));
}

#[test]
fn an_answer_without_a_usable_text_is_no_output() {
    let empty = CompletionOutcome::Answered(vec![]);
    assert_eq!(completion_text(&empty), Err(CreateJournalEntryError::NoOutput));
    let silent = CompletionOutcome::Answered(vec![None]);
    assert_eq!(completion_text(&silent), Err(CreateJournalEntryError::NoOutput));
}

#[test]
fn a_refused_prompt_is_a_prompt_build_error() {
    let outcome = CompletionOutcome::Refused("content must be set".to_string());
    assert_eq!(
        completion_text(&outcome),
        Err(CreateJournalEntryError::PromptBuild("content must be set".to_string()))
    );
}

#[test]
fn a_failure_of_the_service_is_passed_on_with_its_diagnostic() {
    let outcome = CompletionOutcome::Failed("rate limit reached".to_string());
    assert_eq!(
        completion_text(&outcome),
        Err(CreateJournalEntryError::CompletionService("rate limit reached".to_string()))
    );
}
