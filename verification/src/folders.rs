//! Where the files of a user are looked for, and in which order.
use vstd::prelude::*;

verus! {

/// A folder of the user, by the variable of the environment that names it.
#[derive(PartialEq, Eq, Structural, Clone, Copy, Debug)]
pub enum UserFolder {
    /// `APPDATA`, with the folder `dev.clock-p.com` in it.
    AppData,
    /// `HOME`, with the folder `.dev.clock-p.com` in it.
    Home,
    /// `USERPROFILE`, with the folder `.dev.clock-p.com` in it.
    Profile,
}

/// The list with one more folder, where that is there.
pub open spec fn with_folder(folders: Seq<UserFolder>, there: bool, folder: UserFolder) -> Seq<UserFolder> {
    if there {
        folders.push(folder)
    } else {
        folders
    }
}

/// The folders in which a helper looks: that of the applications, then that of the user, for which
/// the profile stands in where no home is named.
pub open spec fn helper_order(app_data: bool, home: bool, profile: bool) -> Seq<UserFolder> {
    let first = with_folder(Seq::empty(), app_data, UserFolder::AppData);
    if home {
        first.push(UserFolder::Home)
    } else {
        with_folder(first, profile, UserFolder::Profile)
    }
}

/// The folders in which a hub looks: that of the applications, that of the user, and the profile
/// where it is not the same as one before.
pub open spec fn hub_order(app_data: bool, home: bool, profile: bool, profile_listed: bool) -> Seq<
    UserFolder,
> {
    with_folder(
        with_folder(
            with_folder(Seq::empty(), app_data, UserFolder::AppData),
            home,
            UserFolder::Home,
        ),
        profile && !profile_listed,
        UserFolder::Profile,
    )
}

/// The folders in which a helper looks for the files of its user, in order.
pub fn helper_folders(app_data: bool, home: bool, profile: bool) -> (folders: Vec<UserFolder>)
    ensures
        folders@ == helper_order(app_data, home, profile),
{
    let mut folders: Vec<UserFolder> = Vec::new();
    if app_data {
        folders.push(UserFolder::AppData);
    }
    if home {
        folders.push(UserFolder::Home);
    } else if profile {
        folders.push(UserFolder::Profile);
    }
    folders
}

/// The folders in which a hub looks for the token of its user, in order. The profile is left out where
/// its file is among those that were listed before.
pub fn hub_folders(app_data: bool, home: bool, profile: bool, profile_listed: bool) -> (folders: Vec<
    UserFolder,
>)
    ensures
        folders@ == hub_order(app_data, home, profile, profile_listed),
{
    let mut folders: Vec<UserFolder> = Vec::new();
    if app_data {
        folders.push(UserFolder::AppData);
    }
    if home {
        folders.push(UserFolder::Home);
    }
    if profile && !profile_listed {
        folders.push(UserFolder::Profile);
    }
    folders
}

} // verus!
