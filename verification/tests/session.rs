use llama::{Context, Dimensions, EvalError, Token, TokenBatch};

const SEVEN_B: Dimensions =
    Dimensions { n_vocab: 32000, n_ctx: 512, n_embd: 4096, kv_cache_size: 268_435_456 };

fn load(handle: usize) -> Context {
    Context::init_from_file_cstr(handle, SEVEN_B).expect("the handle is not null")
}

#[test]
fn null_handle_gives_no_context() {
    assert!(Context::init_from_file_cstr(0, SEVEN_B).is_none());
    let nothing = Dimensions { n_vocab: 0, n_ctx: 0, n_embd: 0, kv_cache_size: 0 };
    assert!(Context::init_from_file_cstr(0, nothing).is_none());
}

#[test]
fn handle_is_kept_as_given() {
    let context = load(0x7f00_1000);
    assert_eq!(context.handle(), 0x7f00_1000);
    assert_eq!(context.handle(), 0x7f00_1000);
    assert!(!context.has_evaluated());

    assert_eq!(load(1).handle(), 1);
    assert_eq!(load(usize::MAX).handle(), usize::MAX);
}

#[test]
fn dimensions_are_those_reported_at_load() {
    let context = load(0x1000);
    assert_eq!(context.n_vocab(), 32000);
    assert_eq!(context.n_ctx(), 512);
    assert_eq!(context.n_embd(), 4096);
    assert_eq!(context.kv_cache_size(), 268_435_456);

    let other = Dimensions { n_vocab: 32001, n_ctx: 2048, n_embd: 5120, kv_cache_size: 0 };
    let context = Context::init_from_file_cstr(0x2000, other).expect("the handle is not null");
    assert_eq!(context.n_vocab(), 32001);
    assert_eq!(context.n_ctx(), 2048);
    assert_eq!(context.n_embd(), 5120);
    assert_eq!(context.kv_cache_size(), 0);
}

#[test]
fn dimensions_are_the_same_at_every_query() {
    let mut context = load(0x1000);
    for round in 0..4 {
        assert_eq!(context.n_vocab(), 32000);
        assert_eq!(context.n_ctx(), 512);
        assert_eq!(context.n_embd(), 4096);
        assert_eq!(context.kv_cache_size(), 268_435_456);
        let _ = context.eval(round % 2);
        if context.has_evaluated() {
            let _ = context.sample_top_p_top_k(round);
        }
    }
}

#[test]
fn status_zero_is_success() {
    let mut context = load(64);
    assert_eq!(context.eval(0), Ok(()));
    assert!(context.has_evaluated());
    assert_eq!(context.handle(), 64);
}

#[test]
fn any_other_status_is_the_one_error() {
    for status in [1, -1, 2, 255, i32::MAX, i32::MIN] {
        let mut context = load(64);
        assert_eq!(context.eval(status), Err(EvalError));
        assert!(!context.has_evaluated());
        assert_eq!(context.handle(), 64);
    }
}

#[test]
fn failed_eval_keeps_an_earlier_success() {
    let mut context = load(64);
    assert_eq!(context.eval(0), Ok(()));
    assert_eq!(context.eval(1), Err(EvalError));
    assert!(context.has_evaluated());
    assert_eq!(context.eval(0), Ok(()));
    assert!(context.has_evaluated());
}

#[test]
fn empty_batch_from_the_start_evaluates() {
    let mut context = load(4096);
    let batch = TokenBatch::new(&[]).expect("no tokens can be counted");
    assert_eq!(batch.len(), 0);
    assert!(batch.ids().is_empty());
    // an engine that accepts the empty batch answers zero
    assert_eq!(context.eval(0), Ok(()));
    assert_eq!(context.handle(), 4096);
    assert_eq!(context.n_vocab(), 32000);
    assert_eq!(context.n_ctx(), 512);
    assert_eq!(context.n_embd(), 4096);
}

#[test]
fn sampled_index_becomes_the_token() {
    let mut context = load(4096);
    assert_eq!(context.eval(0), Ok(()));
    assert_eq!(context.sample_top_p_top_k(29871), Token(29871));
    assert_eq!(context.sample_top_p_top_k(2), Token(2));
    assert_eq!(context.sample_top_p_top_k(0), Token(0));
    assert!(context.has_evaluated());
    assert_eq!(context.handle(), 4096);
}
