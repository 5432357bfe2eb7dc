//! The resolvers: one identifier in, one view out, or the name of what was
//! not found.

use crate::batch::{collect, lemma_collect_error_stays};
use crate::chain::{
    address_from_script, address_matches, asm_string, script_address, script_asm, ServerConfig,
};
use crate::content::{content_matches, content_text, encode_content};
use crate::ids::{InscriptionId, OutPoint, SatPoint};
use crate::index::{
    total_width, Index, Inscription, InscriptionEntry, List, SatRange, TxOut, TxOutModel,
};
use crate::sat::{Rarity, Sat};
use crate::text::{decimal, decimal_string, push_decimal};
use vstd::prelude::*;
use vstd::string::*;

verus! {

/// Why a request could not be answered.
#[derive(Debug, PartialEq, Eq)]
pub enum ServerError {
    /// Something that the answer needs is not in the index; the text says
    /// what.
    NotFound(String),
}

impl View for ServerError {
    type V = Seq<char>;

    open spec fn view(&self) -> Seq<char> {
        match self {
            ServerError::NotFound(what) => what@,
        }
    }
}

impl ServerError {
    /// The text that says what was not found.
    pub fn message(&self) -> (r: &String)
        ensures
            r@ == self@,
    {
        match self {
            ServerError::NotFound(what) => what,
        }
    }
}

/// What an inscription view says, as far as contracts speak of it.
pub struct InscriptionViewModel {
    pub genesis_fee: u64,
    pub genesis_height: u64,
    pub content_length: usize,
    pub content_type: Seq<char>,
    pub content: Seq<char>,
    pub inscription_id: InscriptionId,
    pub address: Seq<char>,
    pub number: i64,
    pub output: TxOutModel,
    pub sat: Seq<char>,
    pub satpoint: SatPoint,
    pub timestamp: u32,
}

/// One inscription with all that the index holds of it.
#[derive(Debug, PartialEq, Eq)]
pub struct InscriptionView {
    pub genesis_fee: u64,
    pub genesis_height: u64,
    pub content_length: usize,
    pub content_type: String,
    pub content: String,
    pub inscription_id: InscriptionId,
    pub address: String,
    pub number: i64,
    pub output: TxOut,
    pub sat: String,
    pub satpoint: SatPoint,
    pub timestamp: u32,
}

impl View for InscriptionView {
    type V = InscriptionViewModel;

    open spec fn view(&self) -> InscriptionViewModel {
        InscriptionViewModel {
            genesis_fee: self.genesis_fee,
            genesis_height: self.genesis_height,
            content_length: self.content_length,
            content_type: self.content_type@,
            content: self.content@,
            inscription_id: self.inscription_id,
            address: self.address@,
            number: self.number,
            output: self.output@,
            sat: self.sat@,
            satpoint: self.satpoint,
            timestamp: self.timestamp,
        }
    }
}

/// The text of an optional text: nothing for none.
pub open spec fn text_or_empty(text: Option<Seq<char>>) -> Seq<char> {
    match text {
        Some(t) => t,
        None => Seq::empty(),
    }
}

/// The satoshi field: the number in decimal, or `-1` for none.
pub open spec fn sat_text(sat: Option<u64>) -> Seq<char> {
    match sat {
        Some(n) => decimal(n as nat),
        None => "-1"@,
    }
}

/// The view of an inscription, given its records, the output it sits on, the
/// text of its content and the address of that output.
pub open spec fn inscription_model(
    id: InscriptionId,
    entry: InscriptionEntry,
    body: Option<Seq<u8>>,
    content_type: Option<Seq<char>>,
    content: Seq<char>,
    satpoint: SatPoint,
    output: TxOutModel,
    address: Option<Seq<char>>,
) -> InscriptionViewModel {
    InscriptionViewModel {
        genesis_fee: entry.fee,
        genesis_height: entry.height,
        content_length: match body {
            Some(b) => b.len() as usize,
            None => 0,
        },
        content_type: text_or_empty(content_type),
        content: content,
        inscription_id: id,
        address: text_or_empty(address),
        number: entry.number,
        output: output,
        sat: sat_text(entry.sat),
        satpoint: satpoint,
        timestamp: entry.timestamp,
    }
}

/// Puts an inscription view together from what was looked up and derived.
/// An absent content type, content length or address becomes the empty or
/// zero value; an absent satoshi becomes `-1`.
pub fn inscription_view(
    id: InscriptionId,
    entry: &InscriptionEntry,
    inscription: &Inscription,
    content: String,
    satpoint: SatPoint,
    output: TxOut,
    address: Option<String>,
) -> (r: InscriptionView)
    ensures
        r@ == inscription_model(
            id,
            *entry,
            inscription.spec_body(),
            inscription.spec_content_type(),
            content@,
            satpoint,
            output@,
            match address {
                Some(a) => Some(a@),
                None => None,
            },
        ),
{
    let content_length: usize = match inscription.content_length() {
        Some(n) => n,
        None => 0,
    };
    let content_type = match inscription.content_type() {
        Some(t) => t.clone(),
        None => String::new(),
    };
    let address = address_or_empty(address);
    let sat = match entry.sat {
        Some(n) => decimal_string(n),
        None => String::from_str("-1"),
    };
    InscriptionView {
        genesis_fee: entry.fee,
        genesis_height: entry.height,
        content_length,
        content_type,
        content,
        inscription_id: id,
        address,
        number: entry.number,
        output,
        sat,
        satpoint,
        timestamp: entry.timestamp,
    }
}

/// `inscription`, a space, and the id.
pub open spec fn inscription_label(id: InscriptionId) -> Seq<char> {
    "inscription "@ + id.spec_text()
}

/// The output that an inscription at `satpoint` sits on: nothing under an
/// empty script for the unbound outpoint, else the output that the index
/// holds; or what is missing.
pub open spec fn current_output(index: &Index, id: InscriptionId, satpoint: SatPoint) -> Result<
    TxOutModel,
    Seq<char>,
> {
    let outpoint = satpoint.outpoint;
    if outpoint.is_unbound() {
        Ok(TxOutModel { value: 0, script_pubkey: Seq::empty() })
    } else if !index.transactions@.contains_key(outpoint.txid) {
        Err(inscription_label(id) + " current transaction"@)
    } else if outpoint.vout >= index.transactions@[outpoint.txid].output@.len() {
        Err(inscription_label(id) + " current transaction output"@)
    } else {
        Ok(index.transactions@[outpoint.txid].output@[outpoint.vout as int]@)
    }
}

/// What asking for inscription `id` gives: its view, or the name of the first
/// thing that the index lacks.
pub open spec fn resolve_inscription(config: ServerConfig, index: &Index, id: InscriptionId) -> Result<
    InscriptionViewModel,
    Seq<char>,
> {
    if !index.entries@.contains_key(id) || !index.inscriptions@.contains_key(id)
        || !index.satpoints@.contains_key(id) {
        Err(inscription_label(id))
    } else {
        let inscription = index.inscriptions@[id];
        let satpoint = index.satpoints@[id];
        match current_output(index, id, satpoint) {
            Err(what) => Err(what),
            Ok(output) => Ok(
                inscription_model(
                    id,
                    index.entries@[id],
                    inscription.spec_body(),
                    inscription.spec_content_type(),
                    content_text(inscription.spec_body()),
                    satpoint,
                    output,
                    script_address(config.chain, output.script_pubkey),
                ),
            ),
        }
    }
}

/// Whether the address and the content of view `v` of inscription `id` are
/// what its output and its body call for.
pub open spec fn inscription_fields_match(
    config: ServerConfig,
    index: &Index,
    id: InscriptionId,
    v: InscriptionViewModel,
) -> bool {
    &&& address_matches(config.chain, v.output.script_pubkey, v.address)
    &&& content_matches(index.inscriptions@[id].spec_body(), v.content)
}

/// Whether the index holds all that a view of inscription `id` needs: its
/// entry, its content, its position and, unless it is unbound, the output it
/// sits on.
pub open spec fn inscription_known(index: &Index, id: InscriptionId) -> bool {
    &&& index.entries@.contains_key(id)
    &&& index.inscriptions@.contains_key(id)
    &&& index.satpoints@.contains_key(id)
    &&& current_output(index, id, index.satpoints@[id]) is Ok
}

/// What asking for each of `ids` alone gives.
pub open spec fn inscription_outcomes(
    config: ServerConfig,
    index: &Index,
    ids: Seq<InscriptionId>,
) -> Seq<Result<InscriptionViewModel, Seq<char>>> {
    Seq::new(ids.len(), |i: int| resolve_inscription(config, index, ids[i]))
}

/// What asking for all of `ids` gives: their views in the order of `ids`,
/// or the error of the first that fails.
pub open spec fn resolve_inscriptions(
    config: ServerConfig,
    index: &Index,
    ids: Seq<InscriptionId>,
) -> Result<Seq<InscriptionViewModel>, Seq<char>> {
    collect(inscription_outcomes(config, index, ids))
}

/// What each of `views` says.
pub open spec fn inscription_models(views: Seq<InscriptionView>) -> Seq<InscriptionViewModel> {
    Seq::new(views.len(), |i: int| views[i]@)
}

/// The error for an inscription that is missing.
fn inscription_not_found(id: InscriptionId) -> (r: ServerError)
    ensures
        r@ == inscription_label(id),
{
    let mut text = String::from_str("inscription ");
    id.push_text(&mut text);
    ServerError::NotFound(text)
}

/// The error for a part of inscription `id` that is missing; `part` names it.
fn inscription_part_not_found(id: InscriptionId, part: &str) -> (r: ServerError)
    ensures
        r@ == inscription_label(id) + part@,
{
    let mut text = String::from_str("inscription ");
    id.push_text(&mut text);
    text.append(part);
    ServerError::NotFound(text)
}

/// Resolves one inscription: its entry, its content and its position must
/// be in the index, and, unless it is unbound, the output it sits on.
pub fn get_inscription(config: &ServerConfig, index: &Index, id: InscriptionId) -> (r: Result<
    InscriptionView,
    ServerError,
>)
    ensures
        match r {
            Ok(v) => resolve_inscription(*config, index, id) == Ok::<
                InscriptionViewModel,
                Seq<char>,
            >(v@),
            Err(e) => resolve_inscription(*config, index, id) == Err::<
                InscriptionViewModel,
                Seq<char>,
            >(e@),
        },
        r matches Ok(v) ==> inscription_fields_match(*config, index, id, v@),
{
    let entry = match index.entries.get(&id) {
        Some(entry) => entry,
        None => {
            return Err(inscription_not_found(id));
        },
    };
    let inscription = match index.inscriptions.get(&id) {
        Some(inscription) => inscription,
        None => {
            return Err(inscription_not_found(id));
        },
    };
    let satpoint = match index.satpoints.get(&id) {
        Some(satpoint) => *satpoint,
        None => {
            return Err(inscription_not_found(id));
        },
    };
    let output = if satpoint.outpoint.is_unbound() {
        TxOut::empty()
    } else {
        let transaction = match index.transactions.get(&satpoint.outpoint.txid) {
            Some(transaction) => transaction,
            None => {
                return Err(inscription_part_not_found(id, " current transaction"));
            },
        };
        let n: usize = satpoint.outpoint.vout as usize;
        if n >= transaction.output.len() {
            return Err(inscription_part_not_found(id, " current transaction output"));
        }
        transaction.output[n].clone()
    };
    let address = address_from_script(config.chain, &output.script_pubkey);
    let content = encode_content(inscription);
    Ok(inscription_view(id, entry, inscription, content, satpoint, output, address))
}

/// What an output view says, as far as contracts speak of it.
pub struct OutputViewModel {
    pub outpoint: OutPoint,
    pub inscriptions: Seq<InscriptionId>,
    pub script_pubkey: Seq<char>,
    pub address: Seq<char>,
    pub output: TxOutModel,
    pub ranges: Seq<SatRange>,
}

/// One output with all that the index holds of it. `script_pubkey` is the
/// assembly listing of the locking script whose bytes `output` carries.
#[derive(Debug, PartialEq, Eq)]
pub struct OutputView {
    pub outpoint: OutPoint,
    pub inscriptions: Vec<InscriptionId>,
    pub script_pubkey: String,
    pub address: String,
    pub output: TxOut,
    pub ranges: Vec<SatRange>,
}

impl View for OutputView {
    type V = OutputViewModel;

    open spec fn view(&self) -> OutputViewModel {
        OutputViewModel {
            outpoint: self.outpoint,
            inscriptions: self.inscriptions@,
            script_pubkey: self.script_pubkey@,
            address: self.address@,
            output: self.output@,
            ranges: self.ranges@,
        }
    }
}

/// What an output resolves to before it is laid out as a view.
pub struct OutputPartsModel {
    pub output: TxOutModel,
    pub inscriptions: Seq<InscriptionId>,
    pub address: Seq<char>,
    pub ranges: Seq<SatRange>,
}

/// What the index says of the satoshis of `outpoint`: nothing where ranges
/// are not tracked or the output is unknown.
pub open spec fn listed(index: &Index, outpoint: OutPoint) -> Option<List> {
    if index.sat_index && index.sat_ranges@.contains_key(outpoint) {
        Some(index.sat_ranges@[outpoint])
    } else {
        None
    }
}

/// The ranges of an unspent output; none for a spent or unknown one.
pub open spec fn unspent_ranges(list: Option<List>) -> Seq<SatRange> {
    match list {
        Some(List::Unspent(ranges)) => ranges@,
        _ => Seq::empty(),
    }
}

/// `output`, a space, and the outpoint.
pub open spec fn output_label(outpoint: OutPoint) -> Seq<char> {
    "output "@ + outpoint.spec_text()
}

/// The output at `outpoint`. The null and the unbound outpoint have an empty
/// script and hold what their unspent ranges hold; any other must be in the
/// index.
pub open spec fn found_output(index: &Index, outpoint: OutPoint) -> Result<TxOutModel, Seq<char>> {
    if outpoint.is_null() || outpoint.is_unbound() {
        Ok(
            TxOutModel {
                value: total_width(unspent_ranges(listed(index, outpoint))) as u64,
                script_pubkey: Seq::empty(),
            },
        )
    } else if !index.transactions@.contains_key(outpoint.txid) || outpoint.vout
        >= index.transactions@[outpoint.txid].output@.len() {
        Err(output_label(outpoint))
    } else {
        Ok(index.transactions@[outpoint.txid].output@[outpoint.vout as int]@)
    }
}

/// Whether the index holds the output at `outpoint`, or `outpoint` is one
/// of the two that stand for no output.
pub open spec fn output_known(index: &Index, outpoint: OutPoint) -> bool {
    outpoint.is_null() || outpoint.is_unbound() || (index.transactions@.contains_key(
        outpoint.txid,
    ) && outpoint.vout < index.transactions@[outpoint.txid].output@.len())
}

/// The inscriptions that sit on `outpoint`.
pub open spec fn inscriptions_on(index: &Index, outpoint: OutPoint) -> Seq<InscriptionId> {
    if index.inscriptions_on_output@.contains_key(outpoint) {
        index.inscriptions_on_output@[outpoint]@
    } else {
        Seq::empty()
    }
}

/// What asking for the parts of `outpoint` gives.
pub open spec fn resolve_output_parts(
    config: ServerConfig,
    index: &Index,
    outpoint: OutPoint,
) -> Result<OutputPartsModel, Seq<char>> {
    match found_output(index, outpoint) {
        Err(what) => Err(what),
        Ok(output) => Ok(
            OutputPartsModel {
                output: output,
                inscriptions: inscriptions_on(index, outpoint),
                address: text_or_empty(script_address(config.chain, output.script_pubkey)),
                ranges: unspent_ranges(listed(index, outpoint)),
            },
        ),
    }
}

/// What asking for output `outpoint` gives: its view, or the name of what the
/// index lacks.
pub open spec fn resolve_output(config: ServerConfig, index: &Index, outpoint: OutPoint) -> Result<
    OutputViewModel,
    Seq<char>,
> {
    match resolve_output_parts(config, index, outpoint) {
        Err(what) => Err(what),
        Ok(parts) => Ok(
            OutputViewModel {
                outpoint: outpoint,
                inscriptions: parts.inscriptions,
                script_pubkey: script_asm(parts.output.script_pubkey),
                address: parts.address,
                output: parts.output,
                ranges: parts.ranges,
            },
        ),
    }
}

/// What asking for each of `outpoints` alone gives.
pub open spec fn output_outcomes(
    config: ServerConfig,
    index: &Index,
    outpoints: Seq<OutPoint>,
) -> Seq<Result<OutputViewModel, Seq<char>>> {
    Seq::new(outpoints.len(), |i: int| resolve_output(config, index, outpoints[i]))
}

/// What asking for all of `outpoints` gives: their views in the order of
/// `outpoints`, or the error of the first that fails.
pub open spec fn resolve_outputs(
    config: ServerConfig,
    index: &Index,
    outpoints: Seq<OutPoint>,
) -> Result<Seq<OutputViewModel>, Seq<char>> {
    collect(output_outcomes(config, index, outpoints))
}

/// What each of `views` says.
pub open spec fn output_models(views: Seq<OutputView>) -> Seq<OutputViewModel> {
    Seq::new(views.len(), |i: int| views[i]@)
}

/// The address field for a derived address: the address, or nothing where
/// the script has none.
pub fn address_or_empty(address: Option<String>) -> (r: String)
    ensures
        r@ == text_or_empty(
            match address {
                Some(a) => Some(a@),
                None => None,
            },
        ),
{
    match address {
        Some(a) => a,
        None => String::new(),
    }
}

/// The error for an output that is missing.
fn output_not_found(outpoint: OutPoint) -> (r: ServerError)
    ensures
        r@ == output_label(outpoint),
{
    let mut text = String::from_str("output ");
    outpoint.push_text(&mut text);
    ServerError::NotFound(text)
}

/// Resolves one output to its parts: the output itself, the inscriptions on
/// it, its address and its satoshi ranges. Only a missing transaction or
/// output fails; the null and the unbound outpoint never do.
pub fn get_output(index: &Index, outpoint: OutPoint, config: &ServerConfig) -> (r: Result<
    (TxOut, Vec<InscriptionId>, String, Vec<SatRange>),
    ServerError,
>)
    ensures
        match r {
            Ok(parts) => resolve_output_parts(*config, index, outpoint) == Ok::<
                OutputPartsModel,
                Seq<char>,
            >(
                OutputPartsModel {
                    output: parts.0@,
                    inscriptions: parts.1@,
                    address: parts.2@,
                    ranges: parts.3@,
                },
            ),
            Err(e) => resolve_output_parts(*config, index, outpoint) == Err::<
                OutputPartsModel,
                Seq<char>,
            >(e@),
        },
        outpoint.is_null() || outpoint.is_unbound() ==> (r matches Ok(parts)
            && parts.0.script_pubkey@.len() == 0 && parts.0.value == total_width(
            unspent_ranges(listed(index, outpoint)),
        )),
        r matches Ok(parts) ==> address_matches(config.chain, parts.0.script_pubkey@, parts.2@),
{
    let list: Option<&List> = if index.sat_index {
        index.sat_ranges.get(&outpoint)
    } else {
        None
    };
    let output = if outpoint.is_null() || outpoint.is_unbound() {
        let value: u64 = match list {
            Some(List::Unspent(ranges)) => ranges.width(),
            _ => 0,
        };
        TxOut { value, script_pubkey: Vec::new() }
    } else {
        let transaction = match index.transactions.get(&outpoint.txid) {
            Some(transaction) => transaction,
            None => {
                return Err(output_not_found(outpoint));
            },
        };
        let n: usize = outpoint.vout as usize;
        if n >= transaction.output.len() {
            return Err(output_not_found(outpoint));
        }
        transaction.output[n].clone()
    };
    let inscriptions: Vec<InscriptionId> = match index.inscriptions_on_output.get(&outpoint) {
        Some(ids) => ids.clone(),
        None => Vec::new(),
    };
    let address = address_or_empty(address_from_script(config.chain, &output.script_pubkey));
    let ranges: Vec<SatRange> = match list {
        Some(List::Unspent(ranges)) => ranges.ranges().clone(),
        _ => Vec::new(),
    };
    assert(inscriptions@ =~= inscriptions_on(index, outpoint));
    assert(ranges@ =~= unspent_ranges(listed(index, outpoint)));
    Ok((output, inscriptions, address, ranges))
}

/// Lays the parts of an output out as a view, with the assembly listing of
/// its script.
pub fn output_view(
    outpoint: OutPoint,
    output: TxOut,
    inscriptions: Vec<InscriptionId>,
    address: String,
    ranges: Vec<SatRange>,
    script_pubkey: String,
) -> (r: OutputView)
    ensures
        r@ == (OutputViewModel {
            outpoint: outpoint,
            inscriptions: inscriptions@,
            script_pubkey: script_pubkey@,
            address: address@,
            output: output@,
            ranges: ranges@,
        }),
{
    OutputView { outpoint, inscriptions, script_pubkey, address, output, ranges }
}

/// What a satoshi view says, as far as contracts speak of it.
pub struct SatViewModel {
    pub sat: Seq<char>,
    pub decimal: Seq<char>,
    pub degree: Seq<char>,
    pub percentile: Seq<char>,
    pub name: Seq<char>,
    pub cycle: u64,
    pub epoch: Seq<char>,
    pub period: u64,
    pub block: Seq<char>,
    pub offset: u64,
    pub rarity: Rarity,
    pub satpoint: SatPoint,
    pub blocktime: i64,
}

/// One satoshi with its attributes, its position and the time of the block
/// that it was mined in. Numbers that may be large travel as decimal text.
#[derive(Debug, PartialEq, Eq)]
pub struct SatView {
    pub sat: String,
    pub decimal: String,
    pub degree: String,
    pub percentile: String,
    pub name: String,
    pub cycle: u64,
    pub epoch: String,
    pub period: u64,
    pub block: String,
    pub offset: u64,
    pub rarity: Rarity,
    pub satpoint: SatPoint,
    pub blocktime: i64,
}

impl View for SatView {
    type V = SatViewModel;

    open spec fn view(&self) -> SatViewModel {
        SatViewModel {
            sat: self.sat@,
            decimal: self.decimal@,
            degree: self.degree@,
            percentile: self.percentile@,
            name: self.name@,
            cycle: self.cycle,
            epoch: self.epoch@,
            period: self.period,
            block: self.block@,
            offset: self.offset,
            rarity: self.rarity,
            satpoint: self.satpoint,
            blocktime: self.blocktime,
        }
    }
}

/// Where satoshi `n` is: where the index has it, and the null satpoint
/// where ranges are not tracked or the satoshi has no recorded position.
pub open spec fn sat_location(index: &Index, n: u64) -> SatPoint {
    if index.sat_index && index.rare_sats@.contains_key(n) {
        index.rare_sats@[n]
    } else {
        SatPoint::null()
    }
}

/// `block`, a space, and the height.
pub open spec fn block_label(height: u64) -> Seq<char> {
    "block "@ + decimal(height as nat)
}

/// What asking for satoshi `sat` gives: its view, or the name of the block
/// whose time the index lacks.
pub open spec fn resolve_sat(index: &Index, sat: &Sat) -> Result<SatViewModel, Seq<char>> {
    if !index.block_times@.contains_key(sat.height) {
        Err(block_label(sat.height))
    } else {
        Ok(
            SatViewModel {
                sat: decimal(sat.n as nat),
                decimal: sat.decimal@,
                degree: sat.degree@,
                percentile: sat.percentile@,
                name: sat.name@,
                cycle: sat.cycle,
                epoch: decimal(sat.epoch as nat),
                period: sat.period,
                block: decimal(sat.height as nat),
                offset: sat.third,
                rarity: sat.rarity,
                satpoint: sat_location(index, sat.n),
                blocktime: index.block_times@[sat.height],
            },
        )
    }
}

/// The handlers of the read interface.
pub struct Rest {}

impl Rest {
    /// One inscription by id.
    pub fn inscription(config: &ServerConfig, index: &Index, inscription_id: InscriptionId) -> (r:
        Result<InscriptionView, ServerError>)
        ensures
            match r {
                Ok(v) => resolve_inscription(*config, index, inscription_id) == Ok::<
                    InscriptionViewModel,
                    Seq<char>,
                >(v@),
                Err(e) => resolve_inscription(*config, index, inscription_id) == Err::<
                    InscriptionViewModel,
                    Seq<char>,
                >(e@),
            },
            r matches Ok(v) ==> inscription_fields_match(*config, index, inscription_id, v@),
    {
        get_inscription(config, index, inscription_id)
    }

    /// Several inscriptions by id, in the order asked for; the first that
    /// fails ends the request with its error.
    pub fn inscriptions(
        config: &ServerConfig,
        index: &Index,
        inscription_ids: Vec<InscriptionId>,
    ) -> (r: Result<Vec<InscriptionView>, ServerError>)
        ensures
            match r {
                Ok(views) => resolve_inscriptions(*config, index, inscription_ids@) == Ok::<
                    Seq<InscriptionViewModel>,
                    Seq<char>,
                >(inscription_models(views@)),
                Err(e) => resolve_inscriptions(*config, index, inscription_ids@) == Err::<
                    Seq<InscriptionViewModel>,
                    Seq<char>,
                >(e@),
            },
            r matches Ok(views) ==> views@.len() == inscription_ids@.len() && forall|i: int|
                0 <= i < views@.len() ==> inscription_fields_match(
                    *config,
                    index,
                    inscription_ids@[i],
                    #[trigger] views@[i]@,
                ),
    {
        let ghost outcomes = inscription_outcomes(*config, index, inscription_ids@);
        let mut views: Vec<InscriptionView> = Vec::new();
        let mut i: usize = 0;
        assert(outcomes.take(0) =~= Seq::empty());
        assert(inscription_models(views@) =~= Seq::empty());
        while i < inscription_ids.len()
            invariant
                i <= inscription_ids@.len(),
                views@.len() == i,
                outcomes == inscription_outcomes(*config, index, inscription_ids@),
                collect(outcomes.take(i as int)) == Ok::<Seq<InscriptionViewModel>, Seq<char>>(
                    inscription_models(views@),
                ),
                forall|j: int|
                    0 <= j < views@.len() ==> inscription_fields_match(
                        *config,
                        index,
                        inscription_ids@[j],
                        #[trigger] views@[j]@,
                    ),
            decreases inscription_ids@.len() - i,
        {
            assert(outcomes.take(i as int + 1).drop_last() =~= outcomes.take(i as int));
            match get_inscription(config, index, inscription_ids[i]) {
                Ok(view) => {
                    let ghost before = views@;
                    views.push(view);
                    assert(inscription_models(views@) =~= inscription_models(before).push(view@));
                },
                Err(e) => {
                    proof {
                        lemma_collect_error_stays(outcomes, i as int + 1);
                    }
                    return Err(e);
                },
            }
            i = i + 1;
        }
        assert(outcomes.take(i as int) =~= outcomes);
        Ok(views)
    }

    /// One satoshi. Its position is the null satpoint where none is known;
    /// only the time of its block must be in the index.
    pub fn sat(_config: &ServerConfig, index: &Index, sat: &Sat) -> (r: Result<SatView, ServerError>)
        ensures
            match r {
                Ok(v) => resolve_sat(index, sat) == Ok::<SatViewModel, Seq<char>>(v@),
                Err(e) => resolve_sat(index, sat) == Err::<SatViewModel, Seq<char>>(e@),
            },
    {
        let located: Option<&SatPoint> = if index.sat_index {
            index.rare_sats.get(&sat.n)
        } else {
            None
        };
        let satpoint = match located {
            Some(satpoint) => *satpoint,
            None => SatPoint::null(),
        };
        let blocktime: i64 = match index.block_times.get(&sat.height) {
            Some(time) => *time,
            None => {
                let mut text = String::from_str("block ");
                push_decimal(&mut text, sat.height);
                return Err(ServerError::NotFound(text));
            },
        };
        Ok(
            SatView {
                sat: decimal_string(sat.n),
                decimal: sat.decimal.clone(),
                degree: sat.degree.clone(),
                percentile: sat.percentile.clone(),
                name: sat.name.clone(),
                cycle: sat.cycle,
                epoch: decimal_string(sat.epoch),
                period: sat.period,
                block: decimal_string(sat.height),
                offset: sat.third,
                rarity: sat.rarity,
                satpoint,
                blocktime,
            },
        )
    }

    /// One output by outpoint.
    pub fn output(config: &ServerConfig, index: &Index, outpoint: OutPoint) -> (r: Result<
        OutputView,
        ServerError,
    >)
        ensures
            match r {
                Ok(v) => resolve_output(*config, index, outpoint) == Ok::<
                    OutputViewModel,
                    Seq<char>,
                >(v@),
                Err(e) => resolve_output(*config, index, outpoint) == Err::<
                    OutputViewModel,
                    Seq<char>,
                >(e@),
            },
            outpoint.is_null() || outpoint.is_unbound() ==> (r matches Ok(v)
                && v.output.script_pubkey@.len() == 0 && v.script_pubkey@.len() == 0
                && v.output.value == total_width(unspent_ranges(listed(index, outpoint)))),
            r matches Ok(v) ==> address_matches(
                config.chain,
                v.output.script_pubkey@,
                v.address@,
            ),
    {
        match get_output(index, outpoint, config) {
            Ok((output, inscriptions, address, ranges)) => {
                let script_pubkey = asm_string(&output.script_pubkey);
                Ok(output_view(outpoint, output, inscriptions, address, ranges, script_pubkey))
            },
            Err(e) => Err(e),
        }
    }

    /// Several outputs by outpoint, in the order asked for; the first that
    /// fails ends the request with its error.
    pub fn outputs(config: &ServerConfig, index: &Index, outpoints: Vec<OutPoint>) -> (r: Result<
        Vec<OutputView>,
        ServerError,
    >)
        ensures
            match r {
                Ok(views) => resolve_outputs(*config, index, outpoints@) == Ok::<
                    Seq<OutputViewModel>,
                    Seq<char>,
                >(output_models(views@)),
                Err(e) => resolve_outputs(*config, index, outpoints@) == Err::<
                    Seq<OutputViewModel>,
                    Seq<char>,
                >(e@),
            },
            r matches Ok(views) ==> views@.len() == outpoints@.len() && forall|i: int|
                0 <= i < views@.len() ==> address_matches(
                    config.chain,
                    (#[trigger] views@[i]).output.script_pubkey@,
                    views@[i].address@,
                ),
    {
        let ghost outcomes = output_outcomes(*config, index, outpoints@);
        let mut views: Vec<OutputView> = Vec::new();
        let mut i: usize = 0;
        assert(outcomes.take(0) =~= Seq::empty());
        assert(output_models(views@) =~= Seq::empty());
        while i < outpoints.len()
            invariant
                i <= outpoints@.len(),
                views@.len() == i,
                outcomes == output_outcomes(*config, index, outpoints@),
                collect(outcomes.take(i as int)) == Ok::<Seq<OutputViewModel>, Seq<char>>(
                    output_models(views@),
                ),
                forall|j: int|
                    0 <= j < views@.len() ==> address_matches(
                        config.chain,
                        (#[trigger] views@[j]).output.script_pubkey@,
                        views@[j].address@,
                    ),
            decreases outpoints@.len() - i,
        {
            assert(outcomes.take(i as int + 1).drop_last() =~= outcomes.take(i as int));
            match Rest::output(config, index, outpoints[i]) {
                Ok(view) => {
                    let ghost before = views@;
                    views.push(view);
                    assert(output_models(views@) =~= output_models(before).push(view@));
                },
                Err(e) => {
                    proof {
                        lemma_collect_error_stays(outcomes, i as int + 1);
                    }
                    return Err(e);
                },
            }
            i = i + 1;
        }
        assert(outcomes.take(i as int) =~= outcomes);
        Ok(views)
    }
}

} // verus!
