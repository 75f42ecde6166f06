use accounting_core::reconcile::component;
use accounting_core::reconcile::description_similarity;
use accounting_core::reconcile::MatchProposal;
use accounting_core::reconcile::ScoringStrategy;
use accounting_core::reconcile::WeightedScoringStrategy;

fn proposal(
    amount_delta_minor: i64,
    date_delta_days: i64,
    transaction_description: &str,
    journal_description: &str,
) -> MatchProposal {
    MatchProposal {
        transaction_id: "txn-1".into(),
        journal_entry_id: "je-1".into(),
        amount_delta_minor,
        date_delta_days,
        transaction_description: transaction_description.into(),
        journal_description: journal_description.into(),
        group_id: None,
    }
}

#[test]
fn weighted_strategy_penalizes_amount_delta() {
    let strategy = WeightedScoringStrategy::default();
    let mut previous = strategy.score(&proposal(0, 0, "Rent", "Rent"));
    for delta in [250, 1_000, 10_000] {
        let score = strategy.score(&proposal(delta, 0, "Rent", "Rent"));
        assert!(score < previous);
        previous = score;
    }
}

#[test]
fn weighted_strategy_penalizes_date_delta() {
    let strategy = WeightedScoringStrategy::default();
    let mut previous = strategy.score(&proposal(0, 0, "Rent", "Rent"));
    let mut reductions = 0;
    for days in [2, 7, 21] {
        let score = strategy.score(&proposal(0, days, "Rent", "Rent"));
        assert!(score <= previous);
        if score < previous {
            reductions += 1;
        }
        previous = score;
    }
    assert!(reductions >= 1, "expected at least one reduction");
}

#[test]
fn weighted_strategy_rewards_description_similarity() {
    let strategy = WeightedScoringStrategy::default();
    let high = strategy.score(&proposal(0, 0, "Utilities invoice", "Utilities invoice"));
    let medium = strategy.score(&proposal(0, 0, "Utilities invoice", "Monthly utilities"));
    let low = strategy.score(&proposal(0, 0, "Utilities invoice", "Travel expense"));
    assert!(high > medium);
    assert!(medium > low);
}

#[test]
fn exact_match_scores_full_confidence() {
    let strategy = WeightedScoringStrategy::default();
    assert_eq!(strategy.score(&proposal(0, 0, "Rent", "Rent")), 1000);
}

#[test]
fn component_values_are_exact() {
    // 1000 * (1 - 250 / 5000) == 950, in thousandths.
    assert_eq!(component(250, 5_000), 950);
    assert_eq!(component(-250, 5_000), 950);
    assert_eq!(component(5_000, 5_000), 0);
    assert_eq!(component(10_000, 5_000), 0);
    assert_eq!(component(0, 5_000), 1000);
    // A non-positive tolerance never scores.
    assert_eq!(component(0, 0), 0);
}

#[test]
fn similarity_is_case_folded_jaccard() {
    // {rent} vs {rent}: 1/1.
    assert_eq!(description_similarity("Rent", "rent"), 1000);
    // {utilities, invoice} vs {monthly, utilities}: 1 shared of 3 distinct.
    assert_eq!(description_similarity("Utilities invoice", "Monthly utilities"), 333);
    // No words in common.
    assert_eq!(description_similarity("Utilities invoice", "Travel expense"), 0);
    // An empty side scores zero.
    assert_eq!(description_similarity("", "Rent"), 0);
    assert_eq!(description_similarity("   ", "Rent"), 0);
    // Repeated words collapse before counting.
    assert_eq!(description_similarity("rent rent rent", "rent"), 1000);
}

#[test]
fn default_weights_blend_components() {
    let strategy = WeightedScoringStrategy::default();
    // amount 950, date 1000, description 1000 under weights 450/350/200:
    // (950 * 450 + 1000 * 350 + 1000 * 200) / 1000 == 977.
    assert_eq!(strategy.score(&proposal(250, 0, "Rent", "Rent")), 977);
}

#[test]
fn zero_weights_score_zero() {
    let strategy = WeightedScoringStrategy::new(0, 0, 0, 5_000, 7);
    assert_eq!(strategy.score(&proposal(0, 0, "Rent", "Rent")), 0);
}
