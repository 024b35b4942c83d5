use vstd::prelude::*;

verus! {

/// The tray icons.
#[derive(Debug, Clone, Copy, Hash, PartialEq, Eq, Structural)]
pub enum AppIcon {
    DEFAULT,
    RECORDING,
    WAITING,
}

/// The path of an icon's file, relative to the application's resources.
pub open spec fn relative_icon_path(icon: AppIcon) -> Seq<char> {
    match icon {
        AppIcon::DEFAULT => "icons/normal.ico"@,
        AppIcon::RECORDING => "icons/recording.ico"@,
        AppIcon::WAITING => "icons/waiting.ico"@,
    }
}

/// Every icon, in the order `DEFAULT`, `RECORDING`, `WAITING`.
pub open spec fn all_icons() -> Seq<AppIcon> {
    seq![AppIcon::DEFAULT, AppIcon::RECORDING, AppIcon::WAITING]
}

/// The position of an icon in `all_icons`.
pub open spec fn icon_index(icon: AppIcon) -> int {
    match icon {
        AppIcon::DEFAULT => 0,
        AppIcon::RECORDING => 1,
        AppIcon::WAITING => 2,
    }
}

impl AppIcon {
    /// The path of the icon's file, relative to the application's resources.
    pub fn relative_icon_path(&self) -> (r: &'static str)
        ensures
            r@ == relative_icon_path(*self),
    {
        match self {
            AppIcon::DEFAULT => "icons/normal.ico",
            AppIcon::RECORDING => "icons/recording.ico",
            AppIcon::WAITING => "icons/waiting.ico",
        }
    }

    /// Every icon, once each.
    pub fn all_variants() -> (r: &'static [AppIcon])
        ensures
            r@ == all_icons(),
    {
        let r: &'static [AppIcon] = &[AppIcon::DEFAULT, AppIcon::RECORDING, AppIcon::WAITING];
        assert(r@ =~= all_icons());
        r
    }
}

/// Why an icon could not be shown.
#[derive(Debug, Clone, PartialEq, Eq, Structural)]
pub enum TrayIconError {
    /// The icon has no resolved path.
    IconPathNotFound,
}

/// The resolved path of each tray icon's file.
#[derive(Debug)]
pub struct TrayIconManager {
    icons_map: Vec<(AppIcon, String)>,
}

impl TrayIconManager {
    #[verifier::type_invariant]
    spec fn icons_map_complete(self) -> bool {
        &&& self.icons_map@.len() == 3
        &&& forall|i: int| 0 <= i < 3 ==> #[trigger] self.icons_map@[i].0 == all_icons()[i]
    }

    /// The resolved path of an icon's file.
    pub closed spec fn icon_path(&self, icon: AppIcon) -> Seq<char> {
        self.icons_map@[icon_index(icon)].1@
    }

    /// Pairs each icon of `all_variants` with its resolved path, given in
    /// the same order.
    pub fn new(resolved_paths: Vec<String>) -> (r: Self)
        requires
            resolved_paths.len() == 3,
        ensures
            forall|icon: AppIcon| #[trigger] r.icon_path(icon) == resolved_paths@[icon_index(
                icon,
            )]@,
    {
        let variants = AppIcon::all_variants();
        let mut icons_map: Vec<(AppIcon, String)> = Vec::new();
        let mut i: usize = 0;
        while i < 3
            invariant
                variants@ == all_icons(),
                resolved_paths.len() == 3,
                i <= 3,
                icons_map@.len() == i,
                forall|j: int|
                    0 <= j < i ==> #[trigger] icons_map@[j].0 == all_icons()[j]
                        && icons_map@[j].1 == resolved_paths@[j],
            decreases 3 - i,
        {
            icons_map.push((variants[i], resolved_paths[i].clone()));
            i = i + 1;
        }
        let r = Self { icons_map };
        assert forall|icon: AppIcon| #[trigger] r.icon_path(icon) == resolved_paths@[icon_index(
            icon,
        )]@ by {
            let k = icon_index(icon);
            assert(0 <= k < 3);
            assert(r.icons_map@[k].0 == all_icons()[k]);
        }
        r
    }

    /// The path of the default icon, to be shown in the tray.
    pub fn show_default_icon(&self) -> (r: Result<String, TrayIconError>)
        ensures
            r matches Ok(p) && p@ == self.icon_path(AppIcon::DEFAULT),
    {
        self.set_icon_from_path(&AppIcon::DEFAULT)
    }

    /// The path of the recording icon, to be shown in the tray.
    pub fn show_recording_icon(&self) -> (r: Result<String, TrayIconError>)
        ensures
            r matches Ok(p) && p@ == self.icon_path(AppIcon::RECORDING),
    {
        self.set_icon_from_path(&AppIcon::RECORDING)
    }

    /// The path of the waiting icon, to be shown in the tray.
    pub fn show_waiting_icon(&self) -> (r: Result<String, TrayIconError>)
        ensures
            r matches Ok(p) && p@ == self.icon_path(AppIcon::WAITING),
    {
        self.set_icon_from_path(&AppIcon::WAITING)
    }

    /// Looks up the path of `app_icon`; every icon has one.
    fn set_icon_from_path(&self, app_icon: &AppIcon) -> (r: Result<String, TrayIconError>)
        ensures
            r matches Ok(p) && p@ == self.icon_path(*app_icon),
    {
        proof {
            use_type_invariant(self);
        }
        let mut i: usize = 0;
        while i < self.icons_map.len()
            invariant
                self.icons_map@.len() == 3,
                forall|j: int| 0 <= j < 3 ==> #[trigger] self.icons_map@[j].0 == all_icons()[j],
                i <= 3,
                forall|j: int| 0 <= j < i ==> self.icons_map@[j].0 != *app_icon,
            decreases 3 - i,
        {
            if self.icons_map[i].0 == *app_icon {
                assert(icon_index(*app_icon) == i) by {
                    assert(self.icons_map@[i as int].0 == all_icons()[i as int]);
                }
                return Ok(self.icons_map[i].1.clone());
            }
            i = i + 1;
        }
        assert(self.icons_map@[icon_index(*app_icon)].0 == all_icons()[icon_index(*app_icon)]);
        Err(TrayIconError::IconPathNotFound)
    }
}

} // verus!
