use vstd::prelude::*;

verus! {

/// A classified explanation for an observed job or pipeline outcome. A
/// single event may yield zero, one, or several diagnoses.
#[derive(Debug, Clone)]
pub enum Diagnosis {
    FlakyTest { test_name: String, reason: String },
    LongRuntime { job_name: String, duration: u64 },
    CacheMiss { step: String },
    InfraFailure,
    InefficientJobOrder { recommendation: String },
    ConfigurationViolation { description: String },
}

/// The ghost image of a [`Diagnosis`], with every string as a character
/// sequence.
pub enum DiagnosisView {
    FlakyTest { test_name: Seq<char>, reason: Seq<char> },
    LongRuntime { job_name: Seq<char>, duration: u64 },
    CacheMiss { step: Seq<char> },
    InfraFailure,
    InefficientJobOrder { recommendation: Seq<char> },
    ConfigurationViolation { description: Seq<char> },
}

impl View for Diagnosis {
    type V = DiagnosisView;

    open spec fn view(&self) -> DiagnosisView {
        match self {
            Diagnosis::FlakyTest { test_name, reason } => DiagnosisView::FlakyTest {
                test_name: test_name@,
                reason: reason@,
            },
            Diagnosis::LongRuntime { job_name, duration } => DiagnosisView::LongRuntime {
                job_name: job_name@,
                duration: *duration,
            },
            Diagnosis::CacheMiss { step } => DiagnosisView::CacheMiss { step: step@ },
            Diagnosis::InfraFailure => DiagnosisView::InfraFailure,
            Diagnosis::InefficientJobOrder { recommendation } => {
                DiagnosisView::InefficientJobOrder { recommendation: recommendation@ }
            },
            Diagnosis::ConfigurationViolation { description } => {
                DiagnosisView::ConfigurationViolation { description: description@ }
            },
        }
    }
}

impl DeepView for Diagnosis {
    type V = DiagnosisView;

    open spec fn deep_view(&self) -> DiagnosisView {
        self.view()
    }
}

} // verus!
