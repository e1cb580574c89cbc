//! Which goal metrics to record when a thread goal changes status.

use vstd::prelude::*;

verus! {

/// Status of a thread goal.
#[derive(Clone, Copy, PartialEq, Eq, Structural)]
pub enum ThreadGoalStatus {
    Active,
    Paused,
    Blocked,
    UsageLimited,
    BudgetLimited,
    Complete,
}

/// A thread goal as the metrics see it.
pub struct ThreadGoal {
    pub status: ThreadGoalStatus,
    pub tokens_used: i64,
    pub time_used_seconds: i64,
}

/// The goal metrics.
#[derive(Clone, Copy, PartialEq, Eq, Structural)]
pub enum GoalMetric {
    Created,
    Resumed,
    Blocked,
    UsageLimited,
    BudgetLimited,
    Completed,
    TokenCount,
    DurationSeconds,
}

/// One measurement to hand to the metrics client.
#[derive(PartialEq, Eq, Structural)]
pub enum GoalMetricRecord {
    /// Increment a counter by `inc`.
    Counter { metric: GoalMetric, inc: i64 },
    /// Record `value` in a histogram, tagged with the goal status.
    Histogram { metric: GoalMetric, value: i64, status: ThreadGoalStatus },
}

/// Records goal metrics when a metrics client is configured.
pub struct GoalMetrics {
    pub has_metrics_client: bool,
}

/// The counter of a terminal status; active and paused goals are not
/// terminal.
pub open spec fn terminal_counter(status: ThreadGoalStatus) -> Option<GoalMetric> {
    match status {
        ThreadGoalStatus::Blocked => Some(GoalMetric::Blocked),
        ThreadGoalStatus::UsageLimited => Some(GoalMetric::UsageLimited),
        ThreadGoalStatus::BudgetLimited => Some(GoalMetric::BudgetLimited),
        ThreadGoalStatus::Complete => Some(GoalMetric::Completed),
        ThreadGoalStatus::Active | ThreadGoalStatus::Paused => None,
    }
}

/// A goal is resumed when it becomes active after being paused, blocked or
/// usage limited.
pub open spec fn is_resumption(previous: Option<ThreadGoalStatus>, status: ThreadGoalStatus) -> bool {
    status == ThreadGoalStatus::Active && (previous == Some(ThreadGoalStatus::Paused) || previous
        == Some(ThreadGoalStatus::Blocked) || previous == Some(ThreadGoalStatus::UsageLimited))
}

/// The records of a possible resumption from `previous` to `status`.
pub open spec fn resumed_records(
    has_metrics_client: bool,
    previous: Option<ThreadGoalStatus>,
    status: ThreadGoalStatus,
) -> Seq<GoalMetricRecord> {
    if has_metrics_client && is_resumption(previous, status) {
        seq![GoalMetricRecord::Counter { metric: GoalMetric::Resumed, inc: 1 }]
    } else {
        Seq::empty()
    }
}

/// The records for a goal that changed from `previous` to its status.
pub open spec fn terminal_records(previous: Option<ThreadGoalStatus>, goal: ThreadGoal) -> Seq<GoalMetricRecord> {
    if previous == Some(goal.status) {
        Seq::empty()
    } else {
        match terminal_counter(goal.status) {
            Some(counter) => seq![
                GoalMetricRecord::Counter { metric: counter, inc: 1 },
                GoalMetricRecord::Histogram {
                    metric: GoalMetric::TokenCount,
                    value: goal.tokens_used,
                    status: goal.status,
                },
                GoalMetricRecord::Histogram {
                    metric: GoalMetric::DurationSeconds,
                    value: goal.time_used_seconds,
                    status: goal.status,
                },
            ],
            None => Seq::empty(),
        }
    }
}

impl GoalMetrics {
    /// Metrics recorded through the given client, if any.
    pub fn new(has_metrics_client: bool) -> (r: Self)
        ensures
            r.has_metrics_client == has_metrics_client,
    {
        GoalMetrics { has_metrics_client }
    }

    /// A goal was created: one increment of the created counter.
    pub fn record_created(&self) -> (r: Vec<GoalMetricRecord>)
        ensures
            r@ == if self.has_metrics_client {
                seq![GoalMetricRecord::Counter { metric: GoalMetric::Created, inc: 1 }]
            } else {
                Seq::empty()
            },
    {
        let mut r = Vec::new();
        if self.has_metrics_client {
            r.push(GoalMetricRecord::Counter { metric: GoalMetric::Created, inc: 1 });
        }
        r
    }

    /// A goal was resumed: one increment of the resumed counter.
    pub fn record_resumed(&self) -> (r: Vec<GoalMetricRecord>)
        ensures
            r@ == if self.has_metrics_client {
                seq![GoalMetricRecord::Counter { metric: GoalMetric::Resumed, inc: 1 }]
            } else {
                Seq::empty()
            },
    {
        let mut r = Vec::new();
        if self.has_metrics_client {
            r.push(GoalMetricRecord::Counter { metric: GoalMetric::Resumed, inc: 1 });
        }
        r
    }

    fn same_status(a: ThreadGoalStatus, b: ThreadGoalStatus) -> (r: bool)
        ensures
            r == (a == b),
    {
        a == b
    }

    /// Counts a resumption when the goal became active from paused, blocked
    /// or usage limited.
    pub fn record_resumed_if_status_changed(
        &self,
        previous_status: Option<ThreadGoalStatus>,
        goal_status: ThreadGoalStatus,
    ) -> (r: Vec<GoalMetricRecord>)
        ensures
            r@ == resumed_records(self.has_metrics_client, previous_status, goal_status),
    {
        let resumed = Self::same_status(goal_status, ThreadGoalStatus::Active) && match previous_status {
            Some(ThreadGoalStatus::Paused) | Some(ThreadGoalStatus::Blocked) | Some(
                ThreadGoalStatus::UsageLimited,
            ) => true,
            _ => false,
        };
        if resumed {
            self.record_resumed()
        } else {
            Vec::new()
        }
    }

    /// When a goal newly reaches a terminal status, counts it and records
    /// its token use and duration, tagged with the status.
    pub fn record_terminal_if_status_changed(
        &self,
        previous_status: Option<ThreadGoalStatus>,
        goal: &ThreadGoal,
    ) -> (r: Vec<GoalMetricRecord>)
        ensures
            r@ == if self.has_metrics_client {
                terminal_records(previous_status, *goal)
            } else {
                Seq::empty()
            },
    {
        let mut r = Vec::new();
        match previous_status {
            Some(prev) => {
                if Self::same_status(prev, goal.status) {
                    return r;
                }
            },
            None => {},
        }
        let counter = match goal.status {
            ThreadGoalStatus::Blocked => GoalMetric::Blocked,
            ThreadGoalStatus::UsageLimited => GoalMetric::UsageLimited,
            ThreadGoalStatus::BudgetLimited => GoalMetric::BudgetLimited,
            ThreadGoalStatus::Complete => GoalMetric::Completed,
            ThreadGoalStatus::Active | ThreadGoalStatus::Paused => {
                return r;
            },
        };
        if !self.has_metrics_client {
            return r;
        }
        r.push(GoalMetricRecord::Counter { metric: counter, inc: 1 });
        r.push(
            GoalMetricRecord::Histogram {
                metric: GoalMetric::TokenCount,
                value: goal.tokens_used,
                status: goal.status,
            },
        );
        r.push(
            GoalMetricRecord::Histogram {
                metric: GoalMetric::DurationSeconds,
                value: goal.time_used_seconds,
                status: goal.status,
            },
        );
        r
    }
}

/// A goal whose status did not change records no terminal metrics, and
/// neither does a goal that is active or paused.
pub proof fn lemma_no_terminal_records_without_terminal_change(
    previous: Option<ThreadGoalStatus>,
    goal: ThreadGoal,
)
    requires
        previous == Some(goal.status) || goal.status == ThreadGoalStatus::Active || goal.status
            == ThreadGoalStatus::Paused,
    ensures
        terminal_records(previous, goal).len() == 0,
{
}

/// A goal that newly reaches a terminal status is counted once, under the
/// counter of that status.
pub proof fn lemma_terminal_change_counted_once(previous: Option<ThreadGoalStatus>, goal: ThreadGoal)
    requires
        previous != Some(goal.status),
        terminal_counter(goal.status) is Some,
    ensures
        terminal_records(previous, goal).len() == 3,
        terminal_records(previous, goal)[0] == (GoalMetricRecord::Counter {
            metric: terminal_counter(goal.status)->0,
            inc: 1,
        }),
{
}

/// Only a goal that was paused, blocked or usage limited is resumed when it
/// becomes active: with a metrics client that counts one resumption; a goal
/// that had no status, was already active, or was budget limited or
/// complete records nothing, and neither does a goal that does not become
/// active or a process without a metrics client.
pub proof fn lemma_resumed_only_from_paused_blocked_or_usage_limited(
    has_metrics_client: bool,
    previous: Option<ThreadGoalStatus>,
    status: ThreadGoalStatus,
)
    ensures
        has_metrics_client && status == ThreadGoalStatus::Active && (previous == Some(
            ThreadGoalStatus::Paused,
        ) || previous == Some(ThreadGoalStatus::Blocked) || previous == Some(
            ThreadGoalStatus::UsageLimited,
        )) ==> resumed_records(has_metrics_client, previous, status) == seq![
            GoalMetricRecord::Counter { metric: GoalMetric::Resumed, inc: 1 },
        ],
        previous is None ==> resumed_records(has_metrics_client, previous, status).len() == 0,
        previous == Some(ThreadGoalStatus::Active) ==> resumed_records(has_metrics_client, previous, status).len()
            == 0,
        previous == Some(ThreadGoalStatus::BudgetLimited) ==> resumed_records(
            has_metrics_client,
            previous,
            status,
        ).len() == 0,
        previous == Some(ThreadGoalStatus::Complete) ==> resumed_records(has_metrics_client, previous, status).len()
            == 0,
        status != ThreadGoalStatus::Active ==> resumed_records(has_metrics_client, previous, status).len() == 0,
        !has_metrics_client ==> resumed_records(has_metrics_client, previous, status).len() == 0,
{
}

} // verus!
