use team_bot::entity::task::TaskStatus;

const STATUSES: [TaskStatus; 5] = [
    TaskStatus::New,
    TaskStatus::InProgress,
    TaskStatus::Finished,
    TaskStatus::Failed,
    TaskStatus::Retried,
];

#[test]
fn status_labels() {
    let labels: Vec<&str> = STATUSES.iter().map(|status| status.label()).collect();
    assert_eq!(labels, vec!["new", "in_progress", "finished", "failed", "retried"]);
}

#[test]
fn status_labels_are_distinct() {
    for first in STATUSES {
        for second in STATUSES {
            assert_eq!(first.label() == second.label(), first == second);
        }
    }
}
