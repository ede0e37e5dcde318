use vstd::prelude::*;

verus! {

/// An intended remediation or notification, consumed opaquely by the
/// external actuator that owns all side effects.
#[derive(Debug, Clone)]
pub enum ActionPlan {
    RetryJob { job_id: String },
    CommentOnPR { message: String },
    SendEmail { subject: String, body: String },
    SendSlack { channel: String, message: String },
}

/// The ghost image of an [`ActionPlan`], with every string as a character
/// sequence.
pub enum ActionPlanView {
    RetryJob { job_id: Seq<char> },
    CommentOnPR { message: Seq<char> },
    SendEmail { subject: Seq<char>, body: Seq<char> },
    SendSlack { channel: Seq<char>, message: Seq<char> },
}

impl View for ActionPlan {
    type V = ActionPlanView;

    open spec fn view(&self) -> ActionPlanView {
        match self {
            ActionPlan::RetryJob { job_id } => ActionPlanView::RetryJob { job_id: job_id@ },
            ActionPlan::CommentOnPR { message } => ActionPlanView::CommentOnPR {
                message: message@,
            },
            ActionPlan::SendEmail { subject, body } => ActionPlanView::SendEmail {
                subject: subject@,
                body: body@,
            },
            ActionPlan::SendSlack { channel, message } => ActionPlanView::SendSlack {
                channel: channel@,
                message: message@,
            },
        }
    }
}

impl DeepView for ActionPlan {
    type V = ActionPlanView;

    open spec fn deep_view(&self) -> ActionPlanView {
        self.view()
    }
}

} // verus!
