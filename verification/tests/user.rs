use backend::dashboard::compare_cycles::{CompareCyclesHandler, CompareCyclesQuery};
use backend::dashboard::error::DashboardError;
use backend::foundation::{CycleId, DecisionProfileId, DomainError, ErrorCode, Timestamp, UserId};
use backend::user::create_profile::{CreateProfileCommand, CreateProfileHandler};
use backend::user::delete_profile::{DeleteProfileCommand, DeleteProfileHandler};
use backend::user::model::{DecisionProfile, ProfileConsent};
use backend::user::record_outcome::RecordOutcomeHandler;
use backend::user::update_profile_from_decision::UpdateProfileFromDecisionHandler;

fn user() -> UserId {
    UserId::new("test@example.com").unwrap()
}

fn consent(collection: bool, analysis: bool) -> ProfileConsent {
    ProfileConsent { collection_enabled: collection, analysis_enabled: analysis, agent_access_enabled: true, consented_at: Timestamp::from_secs(0) }
}

fn profile(analysis: bool) -> DecisionProfile {
    DecisionProfile { id: DecisionProfileId::from_value(4), user_id: user(), consent: consent(true, analysis) }
}

#[test]
fn profile_creation_needs_consent() {
    let handler = CreateProfileHandler::new();
    let cmd = CreateProfileCommand { user_id: user(), consent: consent(false, true) };
    let err = handler.consent_checked(&cmd).unwrap_err();
    assert_eq!(err.code, ErrorCode::ValidationFailed);
    assert!(err.message.contains("Consent required"));
    let cmd = CreateProfileCommand { user_id: user(), consent: consent(true, true) };
    assert!(handler.consent_checked(&cmd).is_ok());
}

#[test]
fn one_profile_per_user() {
    let handler = CreateProfileHandler::new();
    let err = handler.existing_checked(Ok(Some(profile(true)))).unwrap_err();
    assert_eq!(err.code, ErrorCode::Conflict);
    assert!(err.message.contains("already exists"));
    assert!(handler.existing_checked(Ok(None)).is_ok());
    let cmd = CreateProfileCommand { user_id: user(), consent: consent(true, false) };
    let p = handler.new_profile(&cmd);
    assert_eq!(p.user_id, cmd.user_id);
    assert!(!p.consent.analysis_enabled);
    let result = handler.finish(p.id, Ok(())).unwrap();
    assert_eq!(result.profile_id, p.id);
    let err = handler.finish(p.id, Err(DomainError::new(ErrorCode::InternalError, "Repository error".to_string()))).unwrap_err();
    assert_eq!(err.message, "Repository error");
}

#[test]
fn deletion_needs_exact_confirmation() {
    let handler = DeleteProfileHandler::new();
    let wrong = DeleteProfileCommand { user_id: user(), confirmation: "WRONG CONFIRMATION".to_string() };
    let err = handler.confirmation_checked(&wrong).unwrap_err();
    assert_eq!(err.code, ErrorCode::ValidationFailed);
    assert_eq!(err.message, "Confirmation string must be exactly 'DELETE MY PROFILE'");
    let lower = DeleteProfileCommand { user_id: user(), confirmation: "delete my profile".to_string() };
    assert!(handler.confirmation_checked(&lower).is_err());
    let right = DeleteProfileCommand { user_id: user(), confirmation: "DELETE MY PROFILE".to_string() };
    assert!(handler.confirmation_checked(&right).is_ok());
    let err = handler.profile_found(Ok(None)).unwrap_err();
    assert_eq!(err.code, ErrorCode::NotFound);
    assert!(err.message.contains("Profile not found"));
    let p = handler.profile_found(Ok(Some(profile(true)))).unwrap();
    let result = handler.finish(p.id, Ok(())).unwrap();
    assert_eq!(result.deleted_profile_id, DecisionProfileId::from_value(4));
}

#[test]
fn outcome_and_analysis_updates() {
    let recorder = RecordOutcomeHandler::new();
    assert!(recorder.profile_found(Ok(None)).is_err());
    assert!(recorder.finish(Ok(())).unwrap().success);
    assert!(recorder.finish(Err(DomainError::new(ErrorCode::DatabaseError, "x".to_string()))).is_err());
    let updater = UpdateProfileFromDecisionHandler::new();
    let err = updater.consent_checked(&profile(false)).unwrap_err();
    assert_eq!(err.code, ErrorCode::Forbidden);
    assert_eq!(err.message, "Analysis consent not granted");
    assert!(updater.consent_checked(&profile(true)).is_ok());
    let result = updater.finish("analysis", Ok(())).unwrap();
    assert_eq!(result.analysis_result, "analysis");
    let err = updater.profile_found(Ok(None)).unwrap_err();
    assert_eq!(err.message, "Profile not found");
}

#[test]
fn comparison_needs_two_cycles() {
    let handler = CompareCyclesHandler::new();
    let one = CompareCyclesQuery { cycle_ids: vec![CycleId::from_value(1)], user_id: user() };
    let err = handler.query_checked(&one).unwrap_err();
    assert!(matches!(err, DashboardError::InvalidInput(ref m) if m == "At least 2 cycles required for comparison"));
    let none = CompareCyclesQuery { cycle_ids: vec![], user_id: user() };
    assert!(handler.query_checked(&none).is_err());
    let two = CompareCyclesQuery { cycle_ids: vec![CycleId::from_value(1), CycleId::from_value(2)], user_id: user() };
    assert!(handler.query_checked(&two).is_ok());
    let three = CompareCyclesQuery { cycle_ids: vec![CycleId::from_value(1), CycleId::from_value(2), CycleId::from_value(3)], user_id: user() };
    assert!(handler.query_checked(&three).is_ok());
}
