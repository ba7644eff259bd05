use pgvector::Vector;
use starscout::pipeline::Action;
use starscout::pipeline::Event;
use starscout::pipeline::Phase;
use starscout::pipeline::Pipeline;
use starscout::types::Repository;
use std::collections::HashSet;

fn item(id: u64) -> Repository {
    Repository {
        id,
        name: format!("repo{id}"),
        owner: "owner".to_string(),
        description: Some("a repo".to_string()),
        readme_content: None,
        topics: Vec::new(),
        homepage_url: format!("https://example.test/{id}"),
        created_at: Some(1_000),
        last_updated: Some(1_100),
    }
}

fn vector_for(text: &str) -> Vector {
    Vector::from(vec![text.len() as f32, 1.0, 2.0])
}

/// Drive one whole run: the source answers with `items`, the store already
/// knows `existing`, content fetch fails for the ids in `no_content`, the
/// provider answers every request correctly, and all writes succeed.
/// Returns every action the run emitted, in order, with the final state.
fn drive_run(
    items: Vec<Repository>,
    existing: &HashSet<u64>,
    no_content: &HashSet<u64>,
) -> (Vec<Action>, Pipeline) {
    let (mut state, mut all_actions) = Pipeline::start(1, 500);
    let mut queue: Vec<Event> = vec![Event::SourceListed(Ok(items))];
    while let Some(event) = queue.pop() {
        let (next, actions) = state.step(event);
        state = next;
        for action in &actions {
            match action {
                Action::QueryExisting(ids) => {
                    let known: Vec<u64> =
                        ids.iter().copied().filter(|id| existing.contains(id)).collect();
                    queue.push(Event::ExistingIdsFetched(Ok(known)));
                }
                Action::FetchContent(pairs) => {
                    let contents: Vec<Option<String>> = pairs
                        .iter()
                        .map(|(_owner, name)| {
                            let id: u64 = name.trim_start_matches("repo").parse().unwrap();
                            if no_content.contains(&id) {
                                None
                            } else {
                                Some(format!("readme of {name}"))
                            }
                        })
                        .collect();
                    queue.push(Event::ContentFetched(contents));
                }
                Action::EmbedTexts(texts) => {
                    let vectors: Vec<Vector> =
                        texts.iter().map(|t| vector_for(t)).collect();
                    queue.push(Event::EmbeddingsComputed(Ok(vectors)));
                }
                Action::FetchUserName => {
                    queue.push(Event::UserFetched(Ok("octocat".to_string())));
                }
                Action::WriteMembership { .. } => {
                    queue.push(Event::MembershipWritten(Ok(())));
                }
                _ => {}
            }
        }
        all_actions.extend(actions);
    }
    (all_actions, state)
}

fn progress_updates(actions: &[Action]) -> Vec<(usize, usize, usize)> {
    actions
        .iter()
        .filter_map(|a| match a {
            Action::UpdateProgress {
                total,
                processed,
                failed,
            } => Some((*total, *processed, *failed)),
            _ => None,
        })
        .collect()
}

fn count_embed_calls(actions: &[Action]) -> usize {
    actions.iter().filter(|a| matches!(a, Action::EmbedTexts(_))).count()
}

#[test]
fn end_to_end_three_new_items_complete() {
    let items: Vec<Repository> = (1..=3).map(item).collect();
    let (actions, state) = drive_run(items, &HashSet::new(), &HashSet::new());
    assert_eq!(state.phase, Phase::Done);
    assert!(actions.contains(&Action::CompleteJob));
    assert!(!actions.contains(&Action::FailJob));
    let upserts = actions
        .iter()
        .filter(|a| matches!(a, Action::UpsertItem(_, _)))
        .count();
    assert_eq!(upserts, 3);
    let progress = progress_updates(&actions);
    assert_eq!(progress.last(), Some(&(3, 3, 0)));
    let membership: Vec<&Action> = actions
        .iter()
        .filter(|a| matches!(a, Action::WriteMembership { .. }))
        .collect();
    assert_eq!(membership.len(), 1);
    match membership[0] {
        Action::WriteMembership {
            user_id,
            repo_ids,
            username,
        } => {
            assert_eq!(*user_id, 1);
            assert_eq!(repo_ids, &vec![1, 2, 3]);
            assert_eq!(username, "octocat");
        }
        _ => unreachable!(),
    }
    // A nearest-neighbor store ranking the upserted vectors by similarity
    // to a query vector returns the items in descending score order.
    let mut stored: Vec<(u64, Vector)> = actions
        .iter()
        .filter_map(|a| match a {
            Action::UpsertItem(repo, vector) => Some((repo.id, vector.clone())),
            _ => None,
        })
        .collect();
    let query = vector_for("relevant text");
    let score = |v: &Vector| {
        let a = v.as_slice();
        let b = query.as_slice();
        let dot: f32 = a.iter().zip(b).map(|(x, y)| x * y).sum();
        let na: f32 = a.iter().map(|x| x * x).sum::<f32>().sqrt();
        let nb: f32 = b.iter().map(|x| x * x).sum::<f32>().sqrt();
        1.0 - (1.0 - dot / (na * nb))
    };
    stored.sort_by(|x, y| score(&y.1).partial_cmp(&score(&x.1)).unwrap());
    let scores: Vec<f32> = stored.iter().map(|(_, v)| score(v)).collect();
    for pair in scores.windows(2) {
        assert!(pair[0] >= pair[1]);
    }
    assert_eq!(stored.len(), 3);
}

#[test]
fn upserted_vectors_are_the_providers_answers() {
    let items: Vec<Repository> = (1..=2).map(item).collect();
    let (actions, _) = drive_run(items, &HashSet::new(), &HashSet::new());
    for action in &actions {
        if let Action::UpsertItem(repo, vector) = action {
            let text = starscout::text::repo_to_embedding_text(repo);
            assert_eq!(vector, &vector_for(&text));
            assert!(repo.readme_content.is_some());
        }
    }
}

#[test]
fn partial_failure_item_five_is_tracked_not_fatal() {
    let items: Vec<Repository> = (1..=10).map(item).collect();
    let no_content: HashSet<u64> = [5].into_iter().collect();
    let (actions, state) = drive_run(items, &HashSet::new(), &no_content);
    assert_eq!(state.phase, Phase::Done);
    assert!(actions.contains(&Action::CompleteJob));
    let progress = progress_updates(&actions);
    assert_eq!(progress.last(), Some(&(10, 9, 0)));
    let markers: Vec<&Action> = actions
        .iter()
        .filter(|a| matches!(a, Action::TrackUnenriched { .. }))
        .collect();
    assert_eq!(markers.len(), 1);
    match markers[0] {
        Action::TrackUnenriched { id, name, owner } => {
            assert_eq!(*id, 5);
            assert_eq!(name, "repo5");
            assert_eq!(owner, "owner");
        }
        _ => unreachable!(),
    }
    for action in &actions {
        if let Action::UpsertItem(repo, _) = action {
            assert_ne!(repo.id, 5);
        }
    }
}

#[test]
fn second_run_over_unchanged_list_calls_provider_zero_times() {
    let items: Vec<Repository> = (1..=7).map(item).collect();
    let mut store: HashSet<u64> = HashSet::new();
    let (first_actions, _) = drive_run(items.clone(), &store, &HashSet::new());
    assert!(count_embed_calls(&first_actions) > 0);
    for action in &first_actions {
        match action {
            Action::UpsertItem(repo, _) => {
                store.insert(repo.id);
            }
            Action::TrackUnenriched { id, .. } => {
                store.insert(*id);
            }
            _ => {}
        }
    }
    let (second_actions, state) = drive_run(items, &store, &HashSet::new());
    assert_eq!(count_embed_calls(&second_actions), 0);
    assert_eq!(state.phase, Phase::Done);
    assert!(second_actions.contains(&Action::CompleteJob));
    let progress = progress_updates(&second_actions);
    assert_eq!(progress.last(), Some(&(7, 7, 0)));
}

#[test]
fn progress_is_monotone_over_a_multi_batch_run() {
    let items: Vec<Repository> = (1..=120).map(item).collect();
    let no_content: HashSet<u64> = (30..=40).collect();
    let (actions, _) = drive_run(items, &HashSet::new(), &no_content);
    let progress = progress_updates(&actions);
    assert!(progress.len() >= 3);
    let mut last_processed = 0;
    for (total, processed, failed) in progress {
        assert_eq!(total, 120);
        assert!(processed >= last_processed);
        assert!(processed + failed <= total);
        last_processed = processed;
    }
    assert_eq!(last_processed, 109);
}

#[test]
fn provider_batch_failure_fails_whole_batch_and_run_continues() {
    let items: Vec<Repository> = (1..=60).map(item).collect();
    let (mut state, _) = Pipeline::start(2, 501);
    let (next, _) = state.step(Event::SourceListed(Ok(items)));
    state = next;
    let (next, acts) = state.step(Event::ExistingIdsFetched(Ok(Vec::new())));
    state = next;
    let first_batch: Vec<Option<String>> = match &acts[0] {
        Action::FetchContent(pairs) => pairs
            .iter()
            .map(|(_, name)| Some(format!("readme of {name}")))
            .collect(),
        other => panic!("expected a content request, got {other:?}"),
    };
    assert_eq!(first_batch.len(), 50);
    let (next, _) = state.step(Event::ContentFetched(first_batch));
    state = next;
    // The provider errors on the first sub-batch: the whole outer batch of
    // 50 counts as failed, and the run moves on to the next batch.
    let (next, acts) = state.step(Event::EmbeddingsComputed(Err("boom".to_string())));
    state = next;
    assert_eq!(
        acts[0],
        Action::UpdateProgress {
            total: 60,
            processed: 0,
            failed: 50
        }
    );
    assert!(matches!(acts[1], Action::FetchContent(_)));
    assert_eq!(state.phase, Phase::FetchingContent);
}

#[test]
fn wrong_vector_count_fails_the_batch() {
    let items: Vec<Repository> = (1..=2).map(item).collect();
    let (state, _) = Pipeline::start(3, 502);
    let (state, _) = state.step(Event::SourceListed(Ok(items)));
    let (state, _) = state.step(Event::ExistingIdsFetched(Ok(Vec::new())));
    let contents = vec![Some("a".to_string()), Some("b".to_string())];
    let (state, _) = state.step(Event::ContentFetched(contents));
    // Two texts requested, one vector returned.
    let (state, acts) = state.step(Event::EmbeddingsComputed(Ok(vec![vector_for("a")])));
    assert_eq!(
        acts[0],
        Action::UpdateProgress {
            total: 2,
            processed: 0,
            failed: 2
        }
    );
    assert_eq!(state.phase, Phase::FetchingUser);
}

#[test]
fn empty_source_list_completes_immediately() {
    let (state, _) = Pipeline::start(4, 503);
    let (state, acts) = state.step(Event::SourceListed(Ok(Vec::new())));
    assert_eq!(state.phase, Phase::Done);
    assert_eq!(
        acts[0],
        Action::UpdateProgress {
            total: 0,
            processed: 0,
            failed: 0
        }
    );
    assert_eq!(acts[2], Action::CompleteJob);
}

#[test]
fn source_failure_fails_the_job() {
    let (state, _) = Pipeline::start(5, 504);
    let (state, acts) = state.step(Event::SourceListed(Err("network down".to_string())));
    assert_eq!(state.phase, Phase::Done);
    assert_eq!(acts, vec![Action::FailJob]);
}

#[test]
fn membership_write_failure_fails_the_job() {
    let items: Vec<Repository> = vec![item(1)];
    let (state, _) = Pipeline::start(6, 505);
    let (state, _) = state.step(Event::SourceListed(Ok(items)));
    let (state, _) = state.step(Event::ExistingIdsFetched(Ok(vec![1])));
    let (state, _) = state.step(Event::UserFetched(Ok("octocat".to_string())));
    let (state, acts) = state.step(Event::MembershipWritten(Err("disk full".to_string())));
    assert_eq!(state.phase, Phase::Done);
    assert_eq!(acts, vec![Action::FailJob]);
}

#[test]
fn embedding_requests_respect_sub_batch_limit() {
    let items: Vec<Repository> = (1..=10).map(item).collect();
    let (actions, _) = drive_run(items, &HashSet::new(), &HashSet::new());
    let sizes: Vec<usize> = actions
        .iter()
        .filter_map(|a| match a {
            Action::EmbedTexts(texts) => Some(texts.len()),
            _ => None,
        })
        .collect();
    assert_eq!(sizes, vec![4, 4, 2]);
}

#[test]
fn statuses_are_written_in_order() {
    let (state, acts) = Pipeline::start(8, 507);
    assert_eq!(acts[0], Action::SetStatus("Fetching stars...".to_string()));
    assert_eq!(acts[1], Action::FetchSource);
    let (_, acts) = state.step(Event::SourceListed(Ok(vec![item(1)])));
    assert_eq!(
        acts[1],
        Action::SetStatus("Creating embeddings...".to_string())
    );
}

#[test]
fn store_failure_during_dedup_fails_the_job() {
    let (state, _) = Pipeline::start(9, 508);
    let (state, _) = state.step(Event::SourceListed(Ok((1..=4).map(item).collect())));
    let (state, acts) = state.step(Event::ExistingIdsFetched(Err("connection lost".to_string())));
    assert_eq!(state.phase, Phase::Done);
    assert_eq!(
        acts[0],
        Action::UpdateProgress {
            total: 4,
            processed: 0,
            failed: 4
        }
    );
    assert_eq!(acts[1], Action::FailJob);
}

#[test]
fn username_fetch_failure_fails_the_job() {
    let (state, _) = Pipeline::start(10, 509);
    let (state, _) = state.step(Event::SourceListed(Ok(vec![item(1)])));
    let (state, _) = state.step(Event::ExistingIdsFetched(Ok(vec![1])));
    let (state, acts) = state.step(Event::UserFetched(Err("auth expired".to_string())));
    assert_eq!(state.phase, Phase::Done);
    assert_eq!(acts, vec![Action::FailJob]);
}
