//! Laws of the classifier: what [`classify_spec`] returns on each family
//! of hosts, stated for all URLs of the family.

use vstd::prelude::*;

use crate::text::first_value_for;
use crate::text::join_slash;
use crate::text::lemma_not_prefix_at;
use crate::text::lemma_prefix_of_concat;
use crate::text::seq_ne_at;
use crate::text::seq_ne_by_len;

use super::parsed_url::UrlModel;
use super::resolved_url::ResolvedUrlModel;
use super::resolved_url::SudokuPadFullUrlModel;
use super::unresolved_url::UnresolvedUrlModel;
use super::url_value::ParseErrorModel;
use super::url_value::UrlValueModel;
use super::url_value::classify_spec;
use super::url_value::classify_sudokupad_id_spec;
use super::url_value::fpuzzles_domain;
use super::url_value::no_path;
use super::url_value::skip_sudoku_sentinel;
use super::url_value::sudokupad_domain;
use super::url_value::supported_scheme;

verus! {

/// Reveals the domain literals of all site families and proves the
/// families pairwise disjoint.
proof fn lemma_domains_disjoint()
    ensures
        forall|d: Seq<char>| sudokupad_domain(d) ==> !fpuzzles_domain(d),
        forall|d: Seq<char>| sudokupad_domain(d) ==> d != "sudokumaker.app"@,
        forall|d: Seq<char>| sudokupad_domain(d) ==> d != "swaroopg92.github.io"@,
        forall|d: Seq<char>| fpuzzles_domain(d) ==> d != "sudokumaker.app"@,
        forall|d: Seq<char>| fpuzzles_domain(d) ==> d != "swaroopg92.github.io"@,
        "sudokumaker.app"@ != "swaroopg92.github.io"@,
{
    reveal_strlit("sudokupad.app");
    reveal_strlit("alpha.sudokupad.app");
    reveal_strlit("beta.sudokupad.app");
    reveal_strlit("f-puzzles.com");
    reveal_strlit("www.f-puzzles.com");
    reveal_strlit("sudokumaker.app");
    reveal_strlit("swaroopg92.github.io");
    seq_ne_at("sudokupad.app"@, "f-puzzles.com"@, 0);
    seq_ne_by_len("sudokupad.app"@, "www.f-puzzles.com"@);
    seq_ne_by_len("alpha.sudokupad.app"@, "f-puzzles.com"@);
    seq_ne_by_len("alpha.sudokupad.app"@, "www.f-puzzles.com"@);
    seq_ne_by_len("beta.sudokupad.app"@, "f-puzzles.com"@);
    seq_ne_by_len("beta.sudokupad.app"@, "www.f-puzzles.com"@);
    seq_ne_by_len("sudokupad.app"@, "sudokumaker.app"@);
    seq_ne_by_len("alpha.sudokupad.app"@, "sudokumaker.app"@);
    seq_ne_by_len("beta.sudokupad.app"@, "sudokumaker.app"@);
    seq_ne_by_len("sudokupad.app"@, "swaroopg92.github.io"@);
    seq_ne_by_len("alpha.sudokupad.app"@, "swaroopg92.github.io"@);
    seq_ne_by_len("beta.sudokupad.app"@, "swaroopg92.github.io"@);
    seq_ne_by_len("f-puzzles.com"@, "sudokumaker.app"@);
    seq_ne_by_len("www.f-puzzles.com"@, "sudokumaker.app"@);
    seq_ne_by_len("f-puzzles.com"@, "swaroopg92.github.io"@);
    seq_ne_by_len("www.f-puzzles.com"@, "swaroopg92.github.io"@);
    seq_ne_by_len("sudokumaker.app"@, "swaroopg92.github.io"@);
}

/// Any URL whose scheme is neither `http` nor `https` is rejected with
/// the invalid-scheme error, whatever the rest of the URL holds.
pub proof fn lemma_classify_rejects_unsupported_scheme(u: UrlModel)
    requires
        !supported_scheme(u.scheme),
    ensures
        classify_spec(u) == Err::<UrlValueModel, ParseErrorModel>(
            ParseErrorModel::InvalidScheme(u.scheme),
        ),
{
}

/// On the f-puzzles hosts: a non-empty path is an unknown page; with an
/// empty path, the first query parameter decides — key `id` needs one
/// redirect fetch, key `load` is already resolved, any other key and an
/// empty query lack the id.
pub proof fn lemma_classify_fpuzzles_host(u: UrlModel)
    requires
        supported_scheme(u.scheme),
        u.domain matches Some(d) && fpuzzles_domain(d),
        u.path_segments is Some,
    ensures
        !no_path(u.path_segments.unwrap()) ==> classify_spec(u) == Err::<
            UrlValueModel,
            ParseErrorModel,
        >(ParseErrorModel::UnknownPage(u)),
        no_path(u.path_segments.unwrap()) && u.query.len() == 0 ==> classify_spec(u) == Err::<
            UrlValueModel,
            ParseErrorModel,
        >(ParseErrorModel::MissingId(u)),
        no_path(u.path_segments.unwrap()) && u.query.len() > 0 && u.query[0].0 == "id"@
            ==> classify_spec(u) == Ok::<UrlValueModel, ParseErrorModel>(
            UrlValueModel::Unresolved(UnresolvedUrlModel::FPuzzles(u.query[0].1)),
        ),
        no_path(u.path_segments.unwrap()) && u.query.len() > 0 && u.query[0].0 == "load"@
            ==> classify_spec(u) == Ok::<UrlValueModel, ParseErrorModel>(
            UrlValueModel::Resolved(ResolvedUrlModel::FPuzzles(u.query[0].1)),
        ),
        no_path(u.path_segments.unwrap()) && u.query.len() > 0 && u.query[0].0 != "id"@
            && u.query[0].0 != "load"@ ==> classify_spec(u) == Err::<
            UrlValueModel,
            ParseErrorModel,
        >(ParseErrorModel::MissingId(u)),
{
    lemma_domains_disjoint();
    reveal_strlit("id");
    reveal_strlit("load");
    seq_ne_by_len("id"@, "load"@);
}

/// On the sudokupad hosts, the first `puzzleid` query parameter, when
/// present, is the candidate id, and classification is its prefix
/// classification.
pub proof fn lemma_classify_sudokupad_query(u: UrlModel, pid: Seq<char>)
    requires
        supported_scheme(u.scheme),
        u.domain matches Some(d) && sudokupad_domain(d),
        u.path_segments is Some,
        first_value_for(u.query, "puzzleid"@) == Some(pid),
    ensures
        classify_spec(u) == Ok::<UrlValueModel, ParseErrorModel>(classify_sudokupad_id_spec(pid)),
{
}

/// On the sudokupad hosts, without a `puzzleid` query parameter the
/// candidate id is the path past the `sudoku` sentinel joined with `/`,
/// and classification is its prefix classification.
pub proof fn lemma_classify_sudokupad_path(u: UrlModel)
    requires
        supported_scheme(u.scheme),
        u.domain matches Some(d) && sudokupad_domain(d),
        u.path_segments is Some,
        first_value_for(u.query, "puzzleid"@) is None,
    ensures
        classify_spec(u) == Ok::<UrlValueModel, ParseErrorModel>(
            classify_sudokupad_id_spec(
                join_slash(skip_sudoku_sentinel(u.path_segments.unwrap())),
            ),
        ),
{
}

/// A candidate id of the form `scl` + rest resolves to the `Scl`
/// encoding carrying exactly `rest`.
pub proof fn lemma_sudokupad_id_scl(rest: Seq<char>)
    ensures
        classify_sudokupad_id_spec("scl"@ + rest) == UrlValueModel::Resolved(
            ResolvedUrlModel::SudokuPad(SudokuPadFullUrlModel::Scl(rest)),
        ),
{
    reveal_strlit("scl");
    reveal_strlit("fpuzzles");
    reveal_strlit("fpuz");
    let pid = "scl"@ + rest;
    lemma_prefix_of_concat("scl"@, rest);
    lemma_not_prefix_at("fpuzzles"@, pid, 0);
    lemma_not_prefix_at("fpuz"@, pid, 0);
}

/// A candidate id of the form `ctc` + rest also resolves to the `Scl`
/// encoding carrying exactly `rest`.
pub proof fn lemma_sudokupad_id_ctc(rest: Seq<char>)
    ensures
        classify_sudokupad_id_spec("ctc"@ + rest) == UrlValueModel::Resolved(
            ResolvedUrlModel::SudokuPad(SudokuPadFullUrlModel::Scl(rest)),
        ),
{
    reveal_strlit("ctc");
    reveal_strlit("fpuzzles");
    reveal_strlit("fpuz");
    reveal_strlit("scl");
    let pid = "ctc"@ + rest;
    lemma_prefix_of_concat("ctc"@, rest);
    lemma_not_prefix_at("fpuzzles"@, pid, 0);
    lemma_not_prefix_at("fpuz"@, pid, 0);
    lemma_not_prefix_at("scl"@, pid, 0);
}

/// A candidate id of the form `scf` + rest resolves to the `Scf`
/// encoding carrying exactly `rest`.
pub proof fn lemma_sudokupad_id_scf(rest: Seq<char>)
    ensures
        classify_sudokupad_id_spec("scf"@ + rest) == UrlValueModel::Resolved(
            ResolvedUrlModel::SudokuPad(SudokuPadFullUrlModel::Scf(rest)),
        ),
{
    reveal_strlit("scf");
    reveal_strlit("fpuzzles");
    reveal_strlit("fpuz");
    reveal_strlit("scl");
    reveal_strlit("ctc");
    let pid = "scf"@ + rest;
    lemma_prefix_of_concat("scf"@, rest);
    lemma_not_prefix_at("fpuzzles"@, pid, 0);
    lemma_not_prefix_at("fpuz"@, pid, 0);
    lemma_not_prefix_at("scl"@, pid, 2);
    lemma_not_prefix_at("ctc"@, pid, 0);
}

/// A candidate id of the form `fpuzzles` + rest resolves to the `FPuz`
/// encoding carrying exactly `rest`: the longer alias wins.
pub proof fn lemma_sudokupad_id_fpuzzles(rest: Seq<char>)
    ensures
        classify_sudokupad_id_spec("fpuzzles"@ + rest) == UrlValueModel::Resolved(
            ResolvedUrlModel::SudokuPad(SudokuPadFullUrlModel::FPuz(rest)),
        ),
{
    reveal_strlit("fpuzzles");
    lemma_prefix_of_concat("fpuzzles"@, rest);
}

/// A candidate id of the form `fpuz` + rest, where rest does not itself
/// begin with `zles`, resolves to the `FPuz` encoding carrying `rest`.
/// (With `zles` as the head of the rest, the id would carry the longer
/// `fpuzzles` alias and lose those four characters instead.)
pub proof fn lemma_sudokupad_id_fpuz(rest: Seq<char>)
    requires
        !"zles"@.is_prefix_of(rest),
    ensures
        classify_sudokupad_id_spec("fpuz"@ + rest) == UrlValueModel::Resolved(
            ResolvedUrlModel::SudokuPad(SudokuPadFullUrlModel::FPuz(rest)),
        ),
{
    reveal_strlit("fpuzzles");
    reveal_strlit("fpuz");
    reveal_strlit("zles");
    let pid = "fpuz"@ + rest;
    lemma_prefix_of_concat("fpuz"@, rest);
    if "fpuzzles"@.is_prefix_of(pid) {
        assert(rest.len() >= 4);
        assert forall|j: int| 0 <= j < 4 implies "zles"@[j] == rest[j] by {
            assert("fpuzzles"@[j + 4] == pid.subrange(0, 8)[j + 4]);
            assert(pid[j + 4] == rest[j]);
        }
        assert("zles"@ =~= rest.subrange(0, 4));
        assert("zles"@.is_prefix_of(rest));
    }
}

/// A candidate id that carries none of the recognized prefixes is an
/// opaque short id: one body fetch is needed to resolve it.
pub proof fn lemma_sudokupad_id_opaque(pid: Seq<char>)
    requires
        !"fpuzzles"@.is_prefix_of(pid),
        !"fpuz"@.is_prefix_of(pid),
        !"scl"@.is_prefix_of(pid),
        !"ctc"@.is_prefix_of(pid),
        !"scf"@.is_prefix_of(pid),
    ensures
        classify_sudokupad_id_spec(pid) == UrlValueModel::Unresolved(
            UnresolvedUrlModel::SudokuPad(pid),
        ),
{
}

/// On the sudokumaker host, the first `puzzle` query parameter is the
/// resolved id; without one the URL lacks its id.
pub proof fn lemma_classify_sudokumaker(u: UrlModel)
    requires
        supported_scheme(u.scheme),
        u.domain == Some("sudokumaker.app"@),
        u.path_segments is Some,
    ensures
        first_value_for(u.query, "puzzle"@) matches Some(v) ==> classify_spec(u) == Ok::<
            UrlValueModel,
            ParseErrorModel,
        >(UrlValueModel::Resolved(ResolvedUrlModel::SudokuMaker(v))),
        first_value_for(u.query, "puzzle"@) is None ==> classify_spec(u) == Err::<
            UrlValueModel,
            ParseErrorModel,
        >(ParseErrorModel::MissingId(u)),
{
    lemma_domains_disjoint();
}

/// On the penpa host, the page whose path is exactly `penpa-edit` is the
/// resolved reference, carrying the URL itself; every other page defers
/// as unknown, never an error.
pub proof fn lemma_classify_penpa(u: UrlModel)
    requires
        supported_scheme(u.scheme),
        u.domain == Some("swaroopg92.github.io"@),
        u.path_segments is Some,
    ensures
        (u.path_segments.unwrap().len() == 1 && u.path_segments.unwrap()[0] == "penpa-edit"@)
            ==> classify_spec(u) == Ok::<UrlValueModel, ParseErrorModel>(
            UrlValueModel::Resolved(ResolvedUrlModel::Penpa(u)),
        ),
        !(u.path_segments.unwrap().len() == 1 && u.path_segments.unwrap()[0] == "penpa-edit"@)
            ==> classify_spec(u) == Ok::<UrlValueModel, ParseErrorModel>(
            UrlValueModel::Unresolved(UnresolvedUrlModel::Unknown(u)),
        ),
{
    lemma_domains_disjoint();
}

} // verus!
