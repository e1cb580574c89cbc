use deepseek_cli::goal_metrics::{
    GoalMetric, GoalMetricRecord, GoalMetrics, ThreadGoal, ThreadGoalStatus,
};

fn goal(status: ThreadGoalStatus) -> ThreadGoal {
    ThreadGoal { status, tokens_used: 1200, time_used_seconds: 42 }
}

#[test]
fn created_and_resumed_counters() {
    let m = GoalMetrics::new(true);
    assert!(m.record_created() == vec![GoalMetricRecord::Counter { metric: GoalMetric::Created, inc: 1 }]);
    assert!(GoalMetrics::new(false).record_created().is_empty());
    let resumed = vec![GoalMetricRecord::Counter { metric: GoalMetric::Resumed, inc: 1 }];
    for prev in [ThreadGoalStatus::Paused, ThreadGoalStatus::Blocked, ThreadGoalStatus::UsageLimited] {
        assert!(m.record_resumed_if_status_changed(Some(prev), ThreadGoalStatus::Active) == resumed);
    }
    assert!(m.record_resumed_if_status_changed(None, ThreadGoalStatus::Active).is_empty());
    assert!(m
        .record_resumed_if_status_changed(Some(ThreadGoalStatus::Complete), ThreadGoalStatus::Active)
        .is_empty());
    assert!(m
        .record_resumed_if_status_changed(Some(ThreadGoalStatus::Paused), ThreadGoalStatus::Blocked)
        .is_empty());
}

#[test]
fn terminal_status_changes_are_recorded_once() {
    let m = GoalMetrics::new(true);
    let records = m.record_terminal_if_status_changed(
        Some(ThreadGoalStatus::Active),
        &goal(ThreadGoalStatus::Complete),
    );
    assert!(
        records
            == vec![
                GoalMetricRecord::Counter { metric: GoalMetric::Completed, inc: 1 },
                GoalMetricRecord::Histogram {
                    metric: GoalMetric::TokenCount,
                    value: 1200,
                    status: ThreadGoalStatus::Complete,
                },
                GoalMetricRecord::Histogram {
                    metric: GoalMetric::DurationSeconds,
                    value: 42,
                    status: ThreadGoalStatus::Complete,
                },
            ]
    );
    assert!(m
        .record_terminal_if_status_changed(Some(ThreadGoalStatus::Complete), &goal(ThreadGoalStatus::Complete))
        .is_empty());
    assert!(m.record_terminal_if_status_changed(None, &goal(ThreadGoalStatus::Paused)).is_empty());
    let blocked = m.record_terminal_if_status_changed(None, &goal(ThreadGoalStatus::Blocked));
    assert!(blocked[0] == GoalMetricRecord::Counter { metric: GoalMetric::Blocked, inc: 1 });
    let budget = m.record_terminal_if_status_changed(None, &goal(ThreadGoalStatus::BudgetLimited));
    assert!(budget[0] == GoalMetricRecord::Counter { metric: GoalMetric::BudgetLimited, inc: 1 });
    let usage = m.record_terminal_if_status_changed(None, &goal(ThreadGoalStatus::UsageLimited));
    assert!(usage[0] == GoalMetricRecord::Counter { metric: GoalMetric::UsageLimited, inc: 1 });
    assert!(GoalMetrics::new(false)
        .record_terminal_if_status_changed(None, &goal(ThreadGoalStatus::Complete))
        .is_empty());
}
