//! What every turn of the event loop keeps: drawing a frame, routing an intent,
//! taking in an answer of the server, and news of the players.

use vstd::prelude::*;

use super::app::invariants;
use super::app::labels;
use super::app::state::AppModel;
use super::app::types::{IntentModel, ItemDetailModel, NowPlayingModel};
use super::browse::BrowseResultModel;
use super::run::WatchModel;
use crate::video::VideoErrorModel;

verus! {

/// Following the selection leaves every cursor in range.
pub proof fn frames_keep_the_client_well_formed(watch: WatchModel, app: AppModel)
    requires
        app.wf(),
    ensures
        watch.followed(app).wf(),
{
    invariants::lemma_stands(app, watch.followed(app));
}

/// Routing an intent leaves every cursor in range.
pub proof fn routing_keeps_the_client_well_formed(app: AppModel, intent: IntentModel)
    requires
        app.wf(),
    ensures
        app.routed(intent).wf(),
{
    invariants::lemma_stands(app, app.routed(intent));
}

/// An answer of the server leaves every cursor in range, unless it takes the last
/// library away.
pub proof fn answers_keep_the_client_well_formed(app: AppModel, result: BrowseResultModel)
    requires
        app.wf(),
        result.playable(),
        result matches BrowseResultModel::Libraries(libraries) ==> libraries.len() <= usize::MAX
            && (libraries.len() > 0 || app.libraries.len() == 0),
    ensures
        app.result_applied(result).wf(),
{
    let detail: ItemDetailModel = arbitrary();
    match result {
        BrowseResultModel::Folder { id, items } => {
            invariants::fetched_lists_keep_the_client_well_formed(app, id, id, items, detail);
        },
        BrowseResultModel::Section { library_id, title, items } => {
            invariants::fetched_lists_keep_the_client_well_formed(
                app,
                library_id,
                title,
                items,
                detail,
            );
        },
        BrowseResultModel::Search { library_id, query, scope_label, items } => {
            invariants::fetched_lists_keep_the_client_well_formed(
                app,
                library_id,
                labels::search_title(scope_label, query),
                items,
                detail,
            );
        },
        BrowseResultModel::GlobalSearch { query, items } => {
            invariants::fetched_lists_keep_the_client_well_formed(app, query, query, items, detail);
        },
        BrowseResultModel::Failed { id, message } => {
            invariants::fetched_lists_keep_the_client_well_formed(app, id, id, Seq::empty(), detail);
            let dropped = app.loading_dropped(id);
            invariants::lemma_stands(dropped, dropped.failed(message));
        },
        BrowseResultModel::Libraries(libraries) => {
            invariants::a_sync_keeps_the_client_well_formed(app, libraries);
        },
        BrowseResultModel::LibraryMeta(entries) => {
            invariants::fetched_choices_keep_the_client_well_formed(
                app,
                entries,
                Seq::empty(),
                Seq::empty(),
            );
        },
        BrowseResultModel::Playlists(entries) => {
            invariants::fetched_choices_keep_the_client_well_formed(
                app,
                Seq::empty(),
                entries,
                Seq::empty(),
            );
        },
        BrowseResultModel::VideoTracks(entries) => {
            invariants::fetched_choices_keep_the_client_well_formed(
                app,
                Seq::empty(),
                Seq::empty(),
                entries,
            );
        },
        BrowseResultModel::InstantMix(items) => {
            invariants::lemma_same_rows(app, app.mix_started(items));
        },
        BrowseResultModel::Home(data) => {
            invariants::a_fetched_dashboard_keeps_the_client_well_formed(app, data);
        },
        _ => {
            invariants::lemma_stands(app, app.result_applied(result));
        },
    }
}

/// News of the players leaves every cursor in range.
pub proof fn playback_news_keeps_the_client_well_formed(
    app: AppModel,
    name: Seq<char>,
    outcome: Result<(), VideoErrorModel>,
    available: bool,
    error: Option<Seq<char>>,
    playing: Option<NowPlayingModel>,
)
    requires
        app.wf(),
    ensures
        app.video_started(name, outcome).wf(),
        app.audio_asked(name, available).wf(),
        app.playback_ticked(error, playing).wf(),
{
    invariants::lemma_stands(app, app.video_started(name, outcome));
    invariants::lemma_stands(app, app.audio_asked(name, available));
    invariants::lemma_stands(app, app.playback_ticked(error, playing));
}

/// An answer of the server only ever adds to the queued side effects.
pub proof fn answers_keep_the_queued_intents(app: AppModel, result: BrowseResultModel)
    ensures
        app.result_applied(result).keeps_intents(app),
{
}

} // verus!
