//! The `data` oneof of [`SuccessResult`](super::SuccessResult).

use vstd::prelude::*;
use super::{
    FavoriteTitlesView, MangaViewer, ProfileSettingsView, RegisterationData, SearchView,
    SubscribedTitlesView, SubscriptionView, TitleDetailView,
};

verus! {

/// The payload of a successful answer, one variant per endpoint kind.
#[derive(Debug)]
pub enum Data {
    RegisterationData(RegisterationData),
    SubscribedTitlesView(SubscribedTitlesView),
    TitleDetailView(TitleDetailView),
    MangaViewer(MangaViewer),
    ProfileSettingsView(ProfileSettingsView),
    SearchView(SearchView),
    SubscriptionView(SubscriptionView),
    FavoriteTitlesView(FavoriteTitlesView),
}

} // verus!
