//! What holds of the resolvers on every index and every request.

use crate::batch::{
    collect, lemma_collect_fails_fast, lemma_collect_keeps_order, lemma_collect_ok,
};
use crate::chain::ServerConfig;
use crate::ids::{InscriptionId, OutPoint};
use crate::index::Index;
use crate::rest::{
    inscription_known, inscription_label, inscription_outcomes, output_known, output_label,
    output_outcomes, resolve_inscription, resolve_inscriptions, resolve_output, resolve_outputs,
    resolve_sat, sat_text, InscriptionViewModel, OutputViewModel,
};
use crate::sat::Sat;
use crate::text::{decimal, lemma_decimal_starts_with_digit};
use vstd::prelude::*;

verus! {

/// An inscription that the index knows resolves to a view, and the view
/// carries the id that was asked for.
pub proof fn lemma_known_inscription_resolves(
    config: ServerConfig,
    index: &Index,
    id: InscriptionId,
)
    requires
        inscription_known(index, id),
    ensures
        resolve_inscription(config, index, id) is Ok,
        resolve_inscription(config, index, id)->Ok_0.inscription_id == id,
{
}

/// An inscription of which the index lacks anything resolves to no view at
/// all, but to an error whose text starts by naming the inscription.
pub proof fn lemma_unknown_inscription_not_found(
    config: ServerConfig,
    index: &Index,
    id: InscriptionId,
)
    requires
        !inscription_known(index, id),
    ensures
        resolve_inscription(config, index, id) is Err,
        inscription_label(id).is_prefix_of(resolve_inscription(config, index, id)->Err_0),
{
    let label = inscription_label(id);
    assert(label.is_prefix_of(label));
    assert(label.is_prefix_of(label + " current transaction"@));
    assert(label.is_prefix_of(label + " current transaction output"@));
}

/// Where every inscription asked for is known, the answer holds one view for
/// each id, at the place of that id, and it is the view of that id alone.
pub proof fn lemma_inscriptions_keep_order(
    config: ServerConfig,
    index: &Index,
    ids: Seq<InscriptionId>,
)
    requires
        forall|i: int| 0 <= i < ids.len() ==> inscription_known(index, ids[i]),
    ensures
        resolve_inscriptions(config, index, ids) is Ok,
        resolve_inscriptions(config, index, ids)->Ok_0.len() == ids.len(),
        forall|i: int|
            0 <= i < ids.len() ==> resolve_inscription(config, index, ids[i]) == Ok::<
                InscriptionViewModel,
                Seq<char>,
            >(#[trigger] resolve_inscriptions(config, index, ids)->Ok_0[i]),
{
    let outcomes = inscription_outcomes(config, index, ids);
    assert forall|i: int| 0 <= i < outcomes.len() implies outcomes[i] is Ok by {
        lemma_known_inscription_resolves(config, index, ids[i]);
    }
    lemma_collect_keeps_order(outcomes);
}

/// Where inscription `k` of those asked for is unknown and all before it are
/// known, the answer is the error of that inscription, whatever comes after.
pub proof fn lemma_inscriptions_fail_fast(
    config: ServerConfig,
    index: &Index,
    ids: Seq<InscriptionId>,
    k: int,
)
    requires
        0 <= k < ids.len(),
        !inscription_known(index, ids[k]),
        forall|i: int| 0 <= i < k ==> inscription_known(index, ids[i]),
    ensures
        resolve_inscription(config, index, ids[k]) is Err,
        resolve_inscriptions(config, index, ids) == Err::<Seq<InscriptionViewModel>, Seq<char>>(
            resolve_inscription(config, index, ids[k])->Err_0,
        ),
        inscription_label(ids[k]).is_prefix_of(resolve_inscriptions(config, index, ids)->Err_0),
{
    let outcomes = inscription_outcomes(config, index, ids);
    lemma_unknown_inscription_not_found(config, index, ids[k]);
    assert forall|i: int| 0 <= i < k implies outcomes[i] is Ok by {
        lemma_known_inscription_resolves(config, index, ids[i]);
    }
    lemma_collect_fails_fast(outcomes, k);
}

/// An answer to several inscription ids has one view for each id, and each is
/// the view of its id alone: no answer leaves an id out or makes one up.
pub proof fn lemma_inscriptions_answer_each(
    config: ServerConfig,
    index: &Index,
    ids: Seq<InscriptionId>,
)
    requires
        resolve_inscriptions(config, index, ids) is Ok,
    ensures
        resolve_inscriptions(config, index, ids)->Ok_0.len() == ids.len(),
        forall|i: int| 0 <= i < ids.len() ==> inscription_known(index, #[trigger] ids[i]),
        forall|i: int|
            0 <= i < ids.len() ==> resolve_inscription(config, index, ids[i]) == Ok::<
                InscriptionViewModel,
                Seq<char>,
            >(#[trigger] resolve_inscriptions(config, index, ids)->Ok_0[i]),
{
    let outcomes = inscription_outcomes(config, index, ids);
    lemma_collect_ok(outcomes);
    assert forall|i: int| 0 <= i < ids.len() implies inscription_known(index, #[trigger] ids[i])
        && resolve_inscription(config, index, ids[i]) == Ok::<InscriptionViewModel, Seq<char>>(
        resolve_inscriptions(config, index, ids)->Ok_0[i],
    ) by {
        assert(outcomes[i] == resolve_inscription(config, index, ids[i]));
        assert(outcomes[i] == Ok::<InscriptionViewModel, Seq<char>>(collect(outcomes)->Ok_0[i]));
        if !inscription_known(index, ids[i]) {
            lemma_unknown_inscription_not_found(config, index, ids[i]);
        }
    }
}

/// An output resolves exactly if the index knows it, to a view that carries
/// the outpoint asked for; else to an error that names the outpoint.
pub proof fn lemma_output_resolves_iff_known(config: ServerConfig, index: &Index, outpoint: OutPoint)
    ensures
        resolve_output(config, index, outpoint) is Ok <==> output_known(index, outpoint),
        resolve_output(config, index, outpoint) matches Ok(v) ==> v.outpoint == outpoint,
        resolve_output(config, index, outpoint) matches Err(what) ==> what == output_label(
            outpoint,
        ),
{
}

/// The null and the unbound outpoint always resolve, to an output under an
/// empty script.
pub proof fn lemma_sentinel_output_resolves(config: ServerConfig, index: &Index, outpoint: OutPoint)
    requires
        outpoint.is_null() || outpoint.is_unbound(),
    ensures
        resolve_output(config, index, outpoint) is Ok,
        resolve_output(config, index, outpoint)->Ok_0.output.script_pubkey.len() == 0,
{
}

/// Where every output asked for is known, the answer holds one view for each
/// outpoint, at the place of that outpoint, and it is the view of that
/// outpoint alone.
pub proof fn lemma_outputs_keep_order(config: ServerConfig, index: &Index, outpoints: Seq<OutPoint>)
    requires
        forall|i: int| 0 <= i < outpoints.len() ==> output_known(index, outpoints[i]),
    ensures
        resolve_outputs(config, index, outpoints) is Ok,
        resolve_outputs(config, index, outpoints)->Ok_0.len() == outpoints.len(),
        forall|i: int|
            0 <= i < outpoints.len() ==> resolve_output(config, index, outpoints[i]) == Ok::<
                OutputViewModel,
                Seq<char>,
            >(#[trigger] resolve_outputs(config, index, outpoints)->Ok_0[i]),
{
    let outcomes = output_outcomes(config, index, outpoints);
    assert forall|i: int| 0 <= i < outcomes.len() implies outcomes[i] is Ok by {
        lemma_output_resolves_iff_known(config, index, outpoints[i]);
    }
    lemma_collect_keeps_order(outcomes);
}

/// Where output `k` of those asked for is unknown and all before it are
/// known, the answer is the error that names that outpoint, whatever comes
/// after.
pub proof fn lemma_outputs_fail_fast(
    config: ServerConfig,
    index: &Index,
    outpoints: Seq<OutPoint>,
    k: int,
)
    requires
        0 <= k < outpoints.len(),
        !output_known(index, outpoints[k]),
        forall|i: int| 0 <= i < k ==> output_known(index, outpoints[i]),
    ensures
        resolve_outputs(config, index, outpoints) == Err::<Seq<OutputViewModel>, Seq<char>>(
            output_label(outpoints[k]),
        ),
{
    let outcomes = output_outcomes(config, index, outpoints);
    lemma_output_resolves_iff_known(config, index, outpoints[k]);
    assert forall|i: int| 0 <= i < k implies outcomes[i] is Ok by {
        lemma_output_resolves_iff_known(config, index, outpoints[i]);
    }
    lemma_collect_fails_fast(outcomes, k);
}

/// An answer to several outpoints has one view for each outpoint, and each is
/// the view of its outpoint alone.
pub proof fn lemma_outputs_answer_each(config: ServerConfig, index: &Index, outpoints: Seq<OutPoint>)
    requires
        resolve_outputs(config, index, outpoints) is Ok,
    ensures
        resolve_outputs(config, index, outpoints)->Ok_0.len() == outpoints.len(),
        forall|i: int| 0 <= i < outpoints.len() ==> output_known(index, #[trigger] outpoints[i]),
        forall|i: int|
            0 <= i < outpoints.len() ==> resolve_output(config, index, outpoints[i]) == Ok::<
                OutputViewModel,
                Seq<char>,
            >(#[trigger] resolve_outputs(config, index, outpoints)->Ok_0[i]),
{
    let outcomes = output_outcomes(config, index, outpoints);
    lemma_collect_ok(outcomes);
    assert forall|i: int| 0 <= i < outpoints.len() implies output_known(
        index,
        #[trigger] outpoints[i],
    ) && resolve_output(config, index, outpoints[i]) == Ok::<OutputViewModel, Seq<char>>(
        resolve_outputs(config, index, outpoints)->Ok_0[i],
    ) by {
        assert(outcomes[i] == resolve_output(config, index, outpoints[i]));
        assert(outcomes[i] == Ok::<OutputViewModel, Seq<char>>(collect(outcomes)->Ok_0[i]));
        lemma_output_resolves_iff_known(config, index, outpoints[i]);
    }
}

/// A satoshi resolves exactly if the index knows the time of its block,
/// whether or not it knows where the satoshi is.
pub proof fn lemma_sat_resolves_iff_block_known(index: &Index, sat: &Sat)
    ensures
        resolve_sat(index, sat) is Ok <==> index.block_times@.contains_key(sat.height),
        resolve_sat(index, sat) matches Ok(v) ==> v.sat == decimal(sat.n as nat) && (v.satpoint
            == index.rare_sats@[sat.n] || v.satpoint.is_null()),
{
    assert(crate::ids::SatPoint::null().is_null()) by {
        assert(crate::ids::Txid::all_zeros().bytes@.len() == 32);
    }
}

/// The satoshi field is `-1` exactly where no satoshi is given, and the
/// decimal numeral of the satoshi otherwise.
pub proof fn lemma_sat_text_sentinel(sat: Option<u64>)
    ensures
        sat_text(sat) == "-1"@ <==> sat is None,
        sat matches Some(n) ==> sat_text(sat) == decimal(n as nat),
{
    reveal_strlit("-1");
    if let Some(n) = sat {
        lemma_decimal_starts_with_digit(n as nat);
        assert("-1"@[0] == '-');
    }
}

/// The view of an inscription says `-1` for its satoshi exactly where its
/// entry names none.
pub proof fn lemma_view_sat_sentinel(config: ServerConfig, index: &Index, id: InscriptionId)
    requires
        inscription_known(index, id),
    ensures
        resolve_inscription(config, index, id)->Ok_0.sat == "-1"@ <==> index.entries@[id].sat
            is None,
        index.entries@[id].sat matches Some(n) ==> resolve_inscription(
            config,
            index,
            id,
        )->Ok_0.sat == decimal(n as nat),
{
    lemma_sat_text_sentinel(index.entries@[id].sat);
}

} // verus!
