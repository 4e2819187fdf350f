//! The task lifecycle through the service over the verified in-memory
//! repository.

use duck_do::create::{CreateTaskRequest, SaveTaskError};
use duck_do::memory::MemoryRepository;
use duck_do::ports::TaskService;
use duck_do::service::Service;

fn service() -> Service<MemoryRepository> {
    Service::new(MemoryRepository::new())
}

#[test]
fn create_then_get_returns_the_task() {
    let mut svc = service();
    let req = CreateTaskRequest::new("Water the plants".to_string());
    let id = svc.create_task_with(&req, 1, 100).unwrap();
    assert_eq!(id, 1);
    let task = svc.get_task(1).unwrap();
    assert_eq!(task.id(), 1);
    assert_eq!(task.title().as_str(), "Water the plants");
    assert_eq!(task.created(), 100);
    assert!(task.completed().is_none());
}

#[test]
fn duplicate_active_title_is_refused() {
    let mut svc = service();
    let req = CreateTaskRequest::new("Pay rent".to_string());
    svc.create_task_with(&req, 1, 100).unwrap();
    let second = svc.create_task_with(&CreateTaskRequest::new("Pay rent".to_string()), 2, 150);
    match second {
        Err(SaveTaskError::Duplicate { title }) => assert_eq!(title, "Pay rent"),
        other => panic!("expected a duplicate error, got {:?}", other.is_ok()),
    }
}

#[test]
fn title_of_a_completed_task_can_be_reused() {
    let mut svc = service();
    let req = CreateTaskRequest::new("Pay rent".to_string());
    svc.create_task_with(&req, 1, 100).unwrap();
    svc.complete_task_at(1, 200).unwrap();
    let second = svc.create_task_with(&CreateTaskRequest::new("Pay rent".to_string()), 2, 250);
    assert_eq!(second.unwrap(), 2);
}

#[test]
fn completion_records_an_instant_after_creation() {
    let mut svc = service();
    svc.create_task_with(&CreateTaskRequest::new("Sweep".to_string()), 1, 100).unwrap();
    svc.complete_task_at(1, 175).unwrap();
    let task = svc.get_task(1).unwrap();
    assert_eq!(task.completed(), Some(175));
    assert!(task.completed().unwrap() >= task.created());
}

#[test]
fn completion_under_a_backwards_clock_stays_after_creation() {
    let mut svc = service();
    svc.create_task_with(&CreateTaskRequest::new("Sweep".to_string()), 1, 100).unwrap();
    svc.complete_task_at(1, 40).unwrap();
    let task = svc.get_task(1).unwrap();
    assert_eq!(task.completed(), Some(100));
}

#[test]
fn completing_twice_succeeds_and_stays_completed() {
    let mut svc = service();
    svc.create_task_with(&CreateTaskRequest::new("Sweep".to_string()), 1, 100).unwrap();
    assert_eq!(svc.complete_task_at(1, 150).unwrap(), 1);
    assert_eq!(svc.complete_task_at(1, 180).unwrap(), 1);
    let task = svc.get_task(1).unwrap();
    assert_eq!(task.completed(), Some(180));
}

#[test]
fn active_listing_excludes_completed_tasks() {
    let mut svc = service();
    svc.create_task_with(&CreateTaskRequest::new("One".to_string()), 1, 100).unwrap();
    svc.create_task_with(&CreateTaskRequest::new("Two".to_string()), 2, 110).unwrap();
    svc.complete_task_at(1, 120).unwrap();
    let active = svc.get_active_tasks().unwrap();
    assert_eq!(active.len(), 1);
    assert_eq!(active[0].id(), 2);
    assert!(active.iter().all(|t| t.completed().is_none()));
}

#[test]
fn full_listing_includes_completed_tasks() {
    let mut svc = service();
    svc.create_task_with(&CreateTaskRequest::new("One".to_string()), 1, 100).unwrap();
    svc.create_task_with(&CreateTaskRequest::new("Two".to_string()), 2, 110).unwrap();
    svc.complete_task_at(1, 120).unwrap();
    let all = svc.get_tasks().unwrap();
    assert_eq!(all.len(), 2);
    assert_eq!(all[0].id(), 1);
    assert_eq!(all[1].id(), 2);
    assert!(all[0].completed().is_some());
    assert!(all[1].completed().is_none());
}

#[test]
fn buy_milk_scenario() {
    let mut svc = service();
    let a = svc.create_task_with(&CreateTaskRequest::new("Buy milk".to_string()), 9, 100).unwrap();
    let task = svc.get_task(a).unwrap();
    assert_eq!(task.title().as_str(), "Buy milk");
    assert!(task.completed().is_none());
    assert_eq!(svc.complete_task_at(a, 160).unwrap(), a);
    let task = svc.get_task(a).unwrap();
    assert!(task.completed().is_some());
    let active = svc.get_active_tasks().unwrap();
    assert!(active.iter().all(|t| t.id() != a));
    let again = svc.create_task_with(&CreateTaskRequest::new("Buy milk".to_string()), 10, 200);
    assert_eq!(again.unwrap(), 10);
}
