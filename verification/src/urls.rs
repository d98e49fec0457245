//! URL classification and resolution.

mod into_url;
mod laws;
mod parsed_url;
mod resolved_url;
mod unresolved_url;
pub mod url_fetcher;
mod url_value;

pub use into_url::IntoUrl;
pub use laws::lemma_classify_fpuzzles_host;
pub use laws::lemma_classify_penpa;
pub use laws::lemma_classify_rejects_unsupported_scheme;
pub use laws::lemma_classify_sudokumaker;
pub use laws::lemma_classify_sudokupad_path;
pub use laws::lemma_classify_sudokupad_query;
pub use laws::lemma_sudokupad_id_ctc;
pub use laws::lemma_sudokupad_id_fpuz;
pub use laws::lemma_sudokupad_id_fpuzzles;
pub use laws::lemma_sudokupad_id_opaque;
pub use laws::lemma_sudokupad_id_scf;
pub use laws::lemma_sudokupad_id_scl;
pub use parsed_url::Url;
pub use parsed_url::UrlModel;
pub use parsed_url::opt_url_model;
pub use parsed_url::parse_url_of;
pub use parsed_url::url_model_wf;
pub use resolved_url::DecodeError;
pub use resolved_url::PuzzleFormat;
pub use resolved_url::ResolvedUrl;
pub use resolved_url::ResolvedUrlInner;
pub use resolved_url::ResolvedUrlModel;
pub use resolved_url::SudokuPadFullUrl;
pub use resolved_url::SudokuPadFullUrlModel;
pub use unresolved_url::ResolutionError;
pub use unresolved_url::ResolutionErrorModel;
pub use unresolved_url::ResolutionOptions;
pub use unresolved_url::ResolutionStep;
pub use unresolved_url::ResolutionStepModel;
pub use unresolved_url::UnresolvedUrl;
pub use unresolved_url::UnresolvedUrlInner;
pub use unresolved_url::UnresolvedUrlModel;
pub use unresolved_url::interpret_body_spec;
pub use unresolved_url::interpret_redirect_spec;
pub use unresolved_url::lookup_string;
pub use unresolved_url::resolution_step_spec;
pub use url_fetcher::BlockingUrlFetcher;
pub use url_fetcher::cache::BlockingUrlFetcherCache;
pub use url_fetcher::cache::BlockingUrlFetcherCacheExt;
pub use url_fetcher::cache::CacheError;
pub use url_fetcher::cache::CachedFetcher;
pub use url_fetcher::cache::CachedFetcherError;
pub use url_fetcher::cache::lemma_namespace_independence;
pub use url_fetcher::cache::lemma_redirect_round_trip;
pub use url_fetcher::cache::lemma_result_round_trip;
pub use url_fetcher::cache::lemma_warm_hits_agree;
pub use url_fetcher::cache::opt_serialization;
pub use url_fetcher::cache::redirect_entry_decodes;
pub use url_fetcher::map_err::BlockingUrlFetcherErrExt;
pub use url_fetcher::map_err::MapErrUrlFetcher;
pub use url_fetcher::map_err::TotalMapper;
pub use url_fetcher::map_err::maps_some_error;
pub use url_fetcher::scripted::ScriptedBlockingFetcher;
pub use url_fetcher::scripted::ScriptedFetchError;
pub use url_fetcher::sqlite_cache::BlockingFetchError;
pub use url_fetcher::sqlite_cache::RusqliteBlockingUrlFetcherCache;
pub use url_fetcher::sqlite_cache::redirect_table;
pub use url_fetcher::sqlite_cache::result_table;
pub use url_value::ParseError;
pub use url_value::ParseErrorModel;
pub use url_value::UrlValue;
pub use url_value::UrlValueModel;
pub use url_value::classify;
pub use url_value::classify_spec;
pub use url_value::classify_sudokupad_id_spec;
pub use url_value::fpuzzles_domain;
pub use url_value::no_path;
pub use url_value::skip_sudoku_sentinel;
pub use url_value::sudokupad_candidate_id;
pub use url_value::sudokupad_domain;
pub use url_value::supported_scheme;
