use confuse::campaign::{Campaign, CampaignConfig, CampaignReport, Observation};
use confuse::fault::{Architecture, ClassificationError, Fault, FaultPolicy, X86_64Fault};
use confuse::store::CorpusEntry;
use confuse::worker::{WorkerAction, WorkerEvent, WorkerRules, WorkerSlot, WorkerState};

const ITERATIONS: usize = 3;
const PAGE: Fault = Fault::X86_64(X86_64Fault::Page);

fn config(workers: usize, iterations: Option<u64>, crashes: Vec<Fault>) -> CampaignConfig {
    CampaignConfig {
        workers,
        iterations,
        time_limit: None,
        policy: FaultPolicy::from_faults(crashes),
        rules: WorkerRules { max_bridge_retries: 1, timeout_is_benign: true },
        keep_workspaces: false,
    }
}

fn contains(haystack: &[u8], needle: &[u8]) -> bool {
    haystack.windows(needle.len()).any(|window| window == needle)
}

/// Takes an idle slot up to the point where the outcome of a run is awaited.
fn start(campaign: &mut Campaign, slot: usize, elapsed: u64) -> bool {
    if campaign.schedule(slot, elapsed) != Some(WorkerAction::Provision) {
        return false;
    }
    assert_eq!(
        campaign.deliver(slot, WorkerEvent::Provisioned),
        Some(WorkerAction::StartAndInject)
    );
    assert_eq!(campaign.deliver(slot, WorkerEvent::InputInjected), Some(WorkerAction::Observe));
    true
}

#[test]
fn test_harnessing_x509_parse_cli() {
    let mut campaign = Campaign::new(config(1, Some(ITERATIONS as u64), vec![PAGE]));
    campaign.add_corpus_entry(CorpusEntry { input: "racecar".as_bytes().to_vec(), coverage: 0 });

    let mut runs = 0;
    while start(&mut campaign, 0, 0) {
        let candidate = campaign.corpus().get(0).unwrap().input.clone();
        if contains(&candidate, b"racecar") {
            let seen = campaign.observe_exception(0, Architecture::X86_64, 14, candidate);
            assert!(matches!(seen, Ok(Observation::Crash { fault: PAGE, .. })));
            assert_eq!(campaign.deliver(0, WorkerEvent::Recycled), Some(WorkerAction::Wait));
        } else {
            assert_eq!(
                campaign.deliver(0, WorkerEvent::Completed),
                Some(WorkerAction::ForwardFeedback)
            );
        }
        runs += 1;
    }

    assert_eq!(runs, ITERATIONS);
    assert!(campaign.drained());
    let corpus_entries = campaign.report().corpus;
    assert!(corpus_entries > 0, "No corpus in {} iterations", ITERATIONS);
    assert!(campaign.solutions().len() >= 1);
    assert_eq!(campaign.solutions().get(0).unwrap().fault(), PAGE);
    assert_eq!(campaign.solutions().get(0).unwrap().input(), &b"racecar".to_vec());
    assert_eq!(
        campaign.report(),
        CampaignReport { corpus: 1, solutions: 1, iterations: 3, failed_workers: 0 }
    );
}

#[test]
fn new_campaign_is_idle_and_empty() {
    let campaign = Campaign::new(config(3, None, vec![]));
    for slot in 0..3 {
        assert_eq!(campaign.slot(slot), Some(WorkerSlot::new()));
    }
    assert_eq!(campaign.slot(3), None);
    assert_eq!(
        campaign.report(),
        CampaignReport { corpus: 0, solutions: 0, iterations: 0, failed_workers: 0 }
    );
    assert!(campaign.drained());
    assert!(!campaign.exhausted(u64::MAX));
}

#[test]
fn tolerated_fault_leaves_no_record_however_often() {
    let mut campaign = Campaign::new(config(1, None, vec![PAGE]));
    for _ in 0..5 {
        assert!(start(&mut campaign, 0, 0));
        assert_eq!(
            campaign.observe_exception(0, Architecture::X86_64, 3, b"racecar".to_vec()),
            Ok(Observation::Tolerated { fault: Fault::X86_64(X86_64Fault::Breakpoint) })
        );
        assert_eq!(campaign.slot(0).unwrap().state, WorkerState::Faulted);
        assert_eq!(campaign.solutions().len(), 0);
        campaign.deliver(0, WorkerEvent::Recycled);
    }
    assert_eq!(campaign.report().solutions, 0);
    assert_eq!(campaign.report().iterations, 5);
}

#[test]
fn identical_crashing_inputs_leave_one_record() {
    let mut campaign = Campaign::new(config(2, None, vec![PAGE]));
    assert!(start(&mut campaign, 0, 0));
    assert!(start(&mut campaign, 1, 0));
    assert_eq!(
        campaign.observe_exception(0, Architecture::X86_64, 14, b"racecar".to_vec()),
        Ok(Observation::Crash { fault: PAGE, kept: true })
    );
    assert_eq!(
        campaign.observe_exception(1, Architecture::X86_64, 14, b"racecar".to_vec()),
        Ok(Observation::Crash { fault: PAGE, kept: false })
    );
    assert_eq!(campaign.solutions().len(), 1);
    campaign.deliver(0, WorkerEvent::Recycled);
    assert!(start(&mut campaign, 0, 0));
    assert_eq!(
        campaign.observe_exception(0, Architecture::X86_64, 14, b"racecars".to_vec()),
        Ok(Observation::Crash { fault: PAGE, kept: true })
    );
    assert_eq!(campaign.solutions().len(), 2);
    assert_eq!(campaign.solutions().get(1).unwrap().id(), 1);
}

#[test]
fn unknown_code_is_surfaced_and_ends_the_slot() {
    let mut campaign = Campaign::new(config(2, None, vec![PAGE]));
    assert!(start(&mut campaign, 0, 0));
    assert_eq!(
        campaign.observe_exception(0, Architecture::X86_64, 9999, b"x".to_vec()),
        Err(ClassificationError::UnknownFaultCode {
            architecture: Architecture::X86_64,
            code: 9999
        })
    );
    assert_eq!(campaign.slot(0).unwrap().state, WorkerState::Failed);
    assert_eq!(campaign.solutions().len(), 0);
    assert_eq!(campaign.schedule(0, 0), None);
    assert_eq!(campaign.report().failed_workers, 1);
    assert!(start(&mut campaign, 1, 0));
    assert!(campaign
        .observe_exception(5, Architecture::X86_64, 9999, Vec::new())
        .is_err());
}

#[test]
fn exception_from_a_slot_that_is_not_waiting_changes_nothing() {
    let mut campaign = Campaign::new(config(1, None, vec![PAGE]));
    assert_eq!(
        campaign.observe_exception(0, Architecture::X86_64, 14, b"x".to_vec()),
        Ok(Observation::Unexpected { fault: PAGE })
    );
    assert_eq!(
        campaign.observe_exception(7, Architecture::X86_64, 14, b"x".to_vec()),
        Ok(Observation::Unexpected { fault: PAGE })
    );
    assert_eq!(campaign.slot(0), Some(WorkerSlot::new()));
    assert_eq!(campaign.solutions().len(), 0);
}

#[test]
fn faults_are_not_delivered_as_plain_events() {
    let mut campaign = Campaign::new(config(1, None, vec![PAGE]));
    assert!(start(&mut campaign, 0, 0));
    assert_eq!(campaign.deliver(0, WorkerEvent::FaultClassified), None);
    assert_eq!(campaign.deliver(0, WorkerEvent::FaultUnknown), None);
    assert_eq!(campaign.slot(0).unwrap().state, WorkerState::Observing);
    assert_eq!(campaign.deliver(1, WorkerEvent::Completed), None);
}

#[test]
fn iteration_budget_is_not_passed() {
    let mut campaign = Campaign::new(config(4, Some(3), vec![]));
    let started: Vec<bool> = (0..4).map(|slot| start(&mut campaign, slot, 0)).collect();
    assert_eq!(started, vec![true, true, true, false]);
    assert!(campaign.exhausted(0));
    assert!(!campaign.drained());
    for slot in 0..3 {
        assert_eq!(
            campaign.deliver(slot, WorkerEvent::Completed),
            Some(WorkerAction::ForwardFeedback)
        );
    }
    assert!(campaign.drained());
    assert_eq!(campaign.schedule(0, 0), None);
    assert_eq!(campaign.report().iterations, 3);
}

#[test]
fn time_budget_ends_the_campaign() {
    let mut campaign = Campaign::new(CampaignConfig {
        time_limit: Some(60),
        ..config(1, None, vec![])
    });
    assert!(!campaign.exhausted(59));
    assert!(campaign.exhausted(60));
    assert!(start(&mut campaign, 0, 59));
    campaign.deliver(0, WorkerEvent::Completed);
    assert_eq!(campaign.schedule(0, 60), None);
    assert!(campaign.exhausted(0));
    assert_eq!(campaign.report().iterations, 1);
}

#[test]
fn zero_iterations_start_nothing() {
    let mut campaign = Campaign::new(config(1, Some(0), vec![]));
    assert!(campaign.exhausted(0));
    assert_eq!(campaign.schedule(0, 0), None);
    assert_eq!(campaign.slot(0), Some(WorkerSlot::new()));
}

#[test]
fn stop_is_final() {
    let mut campaign = Campaign::new(config(2, None, vec![]));
    assert!(start(&mut campaign, 0, 0));
    campaign.stop();
    assert!(campaign.exhausted(0));
    assert_eq!(campaign.schedule(1, 0), None);
    assert_eq!(campaign.deliver(0, WorkerEvent::Cancelled), Some(WorkerAction::TearDown));
    assert!(campaign.drained());
}

#[test]
fn lost_simulator_degrades_the_campaign_gracefully() {
    let mut campaign = Campaign::new(config(2, None, vec![]));
    assert!(start(&mut campaign, 0, 0));
    assert_eq!(campaign.deliver(0, WorkerEvent::BridgeLost), Some(WorkerAction::Provision));
    assert_eq!(
        campaign.slot(0),
        Some(WorkerSlot { state: WorkerState::Provisioning, bridge_failures: 1 })
    );
    campaign.deliver(0, WorkerEvent::Provisioned);
    assert_eq!(campaign.deliver(0, WorkerEvent::BridgeLost), Some(WorkerAction::Retire));
    assert_eq!(campaign.slot(0).unwrap().state, WorkerState::Failed);
    assert_eq!(campaign.report().failed_workers, 1);
    assert_eq!(campaign.report().iterations, 1);
    assert!(start(&mut campaign, 1, 0));
    assert_eq!(campaign.report().iterations, 2);
}

#[test]
fn provisioning_failure_ends_the_slot_for_good() {
    let mut campaign = Campaign::new(config(1, None, vec![]));
    assert_eq!(campaign.schedule(0, 0), Some(WorkerAction::Provision));
    assert_eq!(
        campaign.deliver(0, WorkerEvent::ProvisioningFailed),
        Some(WorkerAction::Retire)
    );
    assert_eq!(campaign.schedule(0, 0), None);
    assert_eq!(campaign.report().failed_workers, 1);
    assert!(!campaign.exhausted(0));
}

#[test]
fn corpus_grows_by_what_the_engine_keeps() {
    let mut campaign = Campaign::new(config(1, None, vec![]));
    campaign.add_corpus_entry(CorpusEntry { input: b"racecar".to_vec(), coverage: 1 });
    campaign.add_corpus_entry(CorpusEntry { input: b"racecar".to_vec(), coverage: 1 });
    assert_eq!(campaign.corpus().len(), 2);
    assert_eq!(campaign.report().corpus, 2);
}

#[test]
fn workspace_is_removed_when_its_slot_is_done() {
    let mut campaign = Campaign::new(config(2, None, vec![]));
    assert!(campaign.workspace_is_released(0));
    assert!(!campaign.workspace_is_released(2));
    assert!(start(&mut campaign, 0, 0));
    assert!(!campaign.workspace_is_released(0));
    assert!(campaign.workspace_is_released(1));
    campaign.deliver(0, WorkerEvent::Completed);
    assert!(campaign.workspace_is_released(0));
}

#[test]
fn kept_workspaces_stay_until_the_campaign_has_ended() {
    let mut campaign =
        Campaign::new(CampaignConfig { keep_workspaces: true, ..config(2, None, vec![]) });
    assert!(start(&mut campaign, 0, 0));
    assert!(start(&mut campaign, 1, 0));
    campaign.deliver(0, WorkerEvent::Completed);
    assert!(!campaign.workspace_is_released(0));
    campaign.stop();
    assert!(!campaign.workspace_is_released(0));
    campaign.deliver(1, WorkerEvent::Cancelled);
    assert!(campaign.workspace_is_released(0));
    assert!(campaign.workspace_is_released(1));
}
