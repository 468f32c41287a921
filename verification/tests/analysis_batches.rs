use rune::analysis::{empty_progress_callback, AnalysisRun, BatchDecision, FileOutcome};
use rune::library_manage::batch_size_for;
use tokio_util::sync::CancellationToken;

fn analysed(ids: &[i32]) -> Vec<FileOutcome> {
    ids.iter().map(|id| FileOutcome { file_id: *id, analysed: true }).collect()
}

#[test]
fn seven_files_on_six_cores_make_two_batches() {
    let catalogue: Vec<i32> = vec![1, 2, 3, 4, 5, 6, 7];
    let batch_size = batch_size_for(6);
    assert_eq!(batch_size, 4);

    let mut run = AnalysisRun::begin(catalogue.len(), 0);
    let mut batches: Vec<Vec<i32>> = Vec::new();
    let mut reports: Vec<(usize, usize)> = Vec::new();
    let returned;
    loop {
        let batch: Vec<i32> = catalogue
            .iter()
            .copied()
            .filter(|id| run.cursor.map_or(true, |after| *id > after))
            .take(batch_size)
            .collect();
        match run.check_batch(batch.len(), &None) {
            BatchDecision::Finish { total } => {
                returned = total;
                break;
            }
            BatchDecision::Analyse => {}
        }
        let rows = run.settle(&analysed(&batch));
        assert_eq!(rows, batch);
        let (processed, total) = run.progress();
        empty_progress_callback(processed, total);
        reports.push((processed, total));
        batches.push(batch);
    }
    assert_eq!(batches, vec![vec![1, 2, 3, 4], vec![5, 6, 7]]);
    assert_eq!(reports, vec![(4, 7), (7, 7)]);
    assert_eq!(returned, 7);
}

#[test]
fn a_file_that_fails_is_skipped_and_the_batch_goes_on() {
    let mut run = AnalysisRun::begin(10, 2);
    let outcomes = vec![
        FileOutcome { file_id: 3, analysed: true },
        FileOutcome { file_id: 4, analysed: false },
        FileOutcome { file_id: 8, analysed: true },
        FileOutcome { file_id: 9, analysed: false },
    ];
    let rows = run.settle(&outcomes);
    assert_eq!(rows, vec![3, 8]);
    assert_eq!(run.progress(), (4, 10));
    assert_eq!(run.cursor, Some(9));
    assert_eq!(run.total, 10);
}

#[test]
fn an_empty_batch_settles_to_nothing() {
    let mut run = AnalysisRun::begin(5, 5);
    let rows = run.settle(&Vec::new());
    assert!(rows.is_empty());
    assert_eq!(run, AnalysisRun { total: 5, processed: 5, cursor: None });
}

#[test]
fn an_empty_batch_or_cancellation_ends_the_run() {
    let run = AnalysisRun::begin(7, 3);
    assert_eq!(run.decide(0, false), BatchDecision::Finish { total: 7 });
    assert_eq!(run.decide(0, true), BatchDecision::Finish { total: 7 });
    assert_eq!(run.decide(4, true), BatchDecision::Finish { total: 7 });
    assert_eq!(run.decide(4, false), BatchDecision::Analyse);
}

#[test]
fn the_cancellation_handle_is_asked_at_each_batch() {
    let run = AnalysisRun::begin(7, 0);
    let token = CancellationToken::new();
    let handle = Some(token.clone());
    assert_eq!(run.check_batch(4, &handle), BatchDecision::Analyse);
    assert_eq!(run.check_batch(0, &handle), BatchDecision::Finish { total: 7 });
    token.cancel();
    assert_eq!(run.check_batch(4, &handle), BatchDecision::Finish { total: 7 });
    assert_eq!(run.check_batch(4, &None), BatchDecision::Analyse);
}
