//! General facts about a validation run, stated over the models that the
//! run's functions are specified with.
use vstd::prelude::*;
use crate::cli::exit_status;
use crate::report::{block, error_line, invalid_header, schema_invalid, valid_line, Outcome};
use crate::run::{all_valid, blocks, run_lines, run_success};

verus! {

/// The report of instances `a` followed by instances `b` is the report of `a`
/// followed by the report of `b`.
pub proof fn lemma_blocks_concat(a: Seq<(String, Outcome)>, b: Seq<(String, Outcome)>)
    ensures
        blocks(a + b) == blocks(a) + blocks(b),
    decreases b.len(),
{
    if b.len() == 0 {
        assert(a + b =~= a);
        assert(blocks(a) + blocks(b) =~= blocks(a));
    } else {
        lemma_blocks_concat(a, b.drop_last());
        assert((a + b).drop_last() =~= a + b.drop_last());
        assert((a + b).last() == b.last());
        assert(blocks(a + b) =~= blocks(a) + blocks(b));
    }
}

/// The report of a single instance is its block.
pub proof fn lemma_blocks_single(x: (String, Outcome))
    ensures
        blocks(seq![x]) == block(x.0@, x.1),
{
    let s = seq![x];
    let empty = Seq::<(String, Outcome)>::empty();
    assert(s.drop_last() =~= empty);
    assert(blocks(empty) == Seq::<Seq<char>>::empty());
    assert(s.last() == x);
    assert(blocks(s) =~= blocks(empty) + block(x.0@, x.1));
    assert(blocks(s) =~= block(x.0@, x.1));
}

/// When the schema compiles and every instance conforms, each instance gets
/// exactly one `VALID` line, in order, and the run exits with status 0.
pub proof fn lemma_conforming_instances_pass(compiled: Result<(), String>, results: Seq<(String, Outcome)>)
    requires
        compiled is Ok,
        all_valid(results),
    ensures
        run_success(compiled, results),
        exit_status(run_success(compiled, results)) == 0,
        run_lines(compiled, results) == Seq::new(results.len(), |i: int| valid_line(results[i].0@)),
    decreases results.len(),
{
    if results.len() > 0 {
        let init = results.drop_last();
        assert forall|i: int| 0 <= i < init.len() implies (#[trigger] init[i]).1.is_valid_spec() by {
            assert(init[i] == results[i]);
        }
        lemma_conforming_instances_pass(compiled, init);
        assert(results[results.len() - 1].1.is_valid_spec());
        assert(run_lines(compiled, results) =~= Seq::new(results.len(), |i: int| valid_line(results[i].0@)));
    } else {
        assert(run_lines(compiled, results) =~= Seq::new(results.len(), |i: int| valid_line(results[i].0@)));
    }
}

/// An instance that violates `k` constraints gets a header and exactly `k`
/// error lines numbered 1 to `k` in the validator's order, and the run exits
/// with status 1.
pub proof fn lemma_violations_numbered(name: String, errors: Vec<String>)
    ensures
        ({
            let results = seq![(name, Outcome::Invalid(errors))];
            let lines = run_lines(Ok(()), results);
            &&& lines.len() == errors.len() + 1
            &&& lines[0] == invalid_header(name@)
            &&& forall|i: int| 0 <= i < errors.len() ==> lines[i + 1] == error_line((i + 1) as nat, errors[i]@)
            &&& !run_success(Ok(()), results)
            &&& exit_status(run_success(Ok(()), results)) == 1
        }),
{
    let results = seq![(name, Outcome::Invalid(errors))];
    lemma_blocks_single((name, Outcome::Invalid(errors)));
    assert(!results[0].1.is_valid_spec());
    let lines = run_lines(Ok(()), results);
    assert forall|i: int| 0 <= i < errors.len() implies lines[i + 1] == error_line((i + 1) as nat, errors[i]@) by {
        assert(errors.deep_view()[i] == errors[i]@);
    }
}

/// A schema that does not compile gives the single schema-invalid line, no
/// instance is reported whatever instances were given, and the run exits
/// with status 1.
pub proof fn lemma_invalid_schema_short_circuits(message: String, results: Seq<(String, Outcome)>)
    ensures
        run_lines(Err(message), results) == seq![schema_invalid(message@)],
        !run_success(Err(message), results),
        exit_status(run_success(Err(message), results)) == 1,
{
}

/// With a schema that compiles and no instances, the run reports nothing and
/// exits with status 0.
pub proof fn lemma_no_instances_succeed()
    ensures
        run_lines(Ok(()), Seq::empty()) == Seq::<Seq<char>>::empty(),
        run_success(Ok(()), Seq::empty()),
        exit_status(run_success(Ok(()), Seq::empty())) == 0,
{
}

/// The report keeps the order of the instances: for instances `a` then `b`,
/// every line of `a`'s report comes before every line of `b`'s.
pub proof fn lemma_report_keeps_order(compiled: Result<(), String>, a: Seq<(String, Outcome)>, b: Seq<(String, Outcome)>)
    requires
        compiled is Ok,
    ensures
        run_lines(compiled, a + b) == run_lines(compiled, a) + run_lines(compiled, b),
{
    lemma_blocks_concat(a, b);
}

/// For two instances, the report is the first one's block followed by the
/// second one's block, whatever their outcomes.
pub proof fn lemma_two_instances_in_order(first: (String, Outcome), second: (String, Outcome))
    ensures
        run_lines(Ok(()), seq![first, second]) == block(first.0@, first.1) + block(second.0@, second.1),
{
    let s = seq![first, second];
    assert(s.drop_last() =~= seq![first]);
    assert(s.last() == second);
    lemma_blocks_single(first);
}

} // verus!
