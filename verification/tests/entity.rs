//! The task entity, the creation request, the error outcomes, and the
//! service operations that draw a real identifier and read the real
//! clock.

use duck_do::create::{CreateTaskRequest, QueryTaskError, SaveTaskError};
use duck_do::memory::MemoryRepository;
use duck_do::ports::{TaskRepository, TaskService};
use duck_do::service::Service;
use duck_do::task::Task;

#[test]
fn entity_holds_its_fields() {
    let t = Task::new(42, "Read".to_string(), 7, None);
    assert_eq!(t.id(), 42);
    assert_eq!(t.title().as_str(), "Read");
    assert_eq!(t.created(), 7);
    assert_eq!(t.completed(), None);
    let copy = t.duplicate();
    assert_eq!(copy.id(), 42);
    assert_eq!(copy.title().as_str(), "Read");
    assert_eq!(copy.completed(), None);
}

#[test]
fn entity_completion_refreshes_and_never_precedes_creation() {
    let mut t = Task::new(1, "Read".to_string(), 50, None);
    t.complete(80);
    assert_eq!(t.completed(), Some(80));
    t.complete(90);
    assert_eq!(t.completed(), Some(90));
    t.complete(10);
    assert_eq!(t.completed(), Some(50));
}

#[test]
fn request_carries_its_title() {
    let req = CreateTaskRequest::new("Call home".to_string());
    assert_eq!(req.title().as_str(), "Call home");
}

#[test]
fn missing_identifier_is_not_found() {
    let svc = Service::new(MemoryRepository::new());
    match svc.get_task(12345) {
        Err(QueryTaskError::NotFound { id }) => assert_eq!(id, 12345),
        _ => panic!("expected a not-found outcome"),
    }
}

#[test]
fn stored_identifier_is_an_unknown_save_error() {
    let mut svc = Service::new(MemoryRepository::new());
    svc.create_task_with(&CreateTaskRequest::new("One".to_string()), 7, 100).unwrap();
    match svc.create_task_with(&CreateTaskRequest::new("Two".to_string()), 7, 150) {
        Err(SaveTaskError::Unknown { message }) => assert!(!message.is_empty()),
        _ => panic!("expected an unknown save error"),
    }
}

#[test]
fn repository_updates_nothing_for_an_absent_identifier() {
    let mut repo = MemoryRepository::new();
    let id = repo.update_task(Task::new(3, "Ghostly".to_string(), 5, None)).unwrap();
    assert_eq!(id, 3);
    assert_eq!(repo.get_tasks().unwrap().len(), 0);
}

#[test]
fn repository_refuses_an_update_to_a_held_title() {
    let mut repo = MemoryRepository::new();
    repo.create_task(Task::new(1, "One".to_string(), 5, None)).unwrap();
    repo.create_task(Task::new(2, "Two".to_string(), 6, None)).unwrap();
    match repo.update_task(Task::new(2, "One".to_string(), 6, None)) {
        Err(SaveTaskError::Duplicate { title }) => assert_eq!(title, "One"),
        _ => panic!("expected a duplicate error"),
    }
}

#[test]
fn created_task_with_a_drawn_identifier_and_the_real_clock() {
    let mut svc = Service::new(MemoryRepository::new());
    let req = CreateTaskRequest::new("Stretch".to_string());
    let id = svc.create_task(&req).unwrap();
    let task = svc.get_task(id).unwrap();
    assert_eq!(task.id(), id);
    assert_eq!(task.title().as_str(), "Stretch");
    assert!(task.completed().is_none());
    // the drawn instant is a real epoch reading, well past zero
    assert!(task.created() > 0);
    let completed = svc.complete_task(id).unwrap();
    assert_eq!(completed, id);
    let task = svc.get_task(id).unwrap();
    assert!(task.completed().is_some());
    assert!(task.completed().unwrap() >= task.created());
}

#[test]
fn drawn_identifiers_differ_between_tasks() {
    let mut svc = Service::new(MemoryRepository::new());
    let a = svc.create_task(&CreateTaskRequest::new("One".to_string())).unwrap();
    let b = svc.create_task(&CreateTaskRequest::new("Two".to_string())).unwrap();
    assert_ne!(a, b);
}
