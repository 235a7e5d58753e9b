//! Derivation of the namespaced on-disk locations for an application's
//! configuration and log data.
//!
//! Every path is built from a base directory supplied by the platform
//! directory provider, a single segment equal to the active identifier's
//! rendered name, and fixed segments below it. The functions here compute
//! the paths; creating the directories is left to the caller, since it is
//! plain filesystem work with no logic of its own.

use vstd::prelude::*;

use crate::decimal::{decimal_string, spec_decimal};
use crate::product::{spec_render_name, ProductName, ProductNameModel};

verus! {

/// The namespace segment used when no identifier is supplied.
pub const DEFAULT_PRODUCT_BASE: &'static str = "dev.thmsn.unspecified";

/// The unrecoverable failures of path derivation: a broken host environment,
/// not a condition worth retrying.
#[derive(Clone, Copy, Debug, PartialEq, Eq, Structural)]
pub enum PathError {
    /// The platform directory provider has no base path for the requested
    /// directory kind.
    UnresolvablePlatformPath,
    /// The system clock reports a time before the Unix epoch.
    ClockBeforeEpoch,
}

/// A logical category of platform-specific storage location, resolved to a
/// base path by the platform directory provider.
#[derive(Clone, Copy, Debug, PartialEq, Eq, Structural)]
pub enum DirKind {
    Config,
    Cache,
    Data,
    DataLocal,
    Home,
    Audio,
    Desktop,
    Documents,
    Downloads,
    Executables,
    Fonts,
    Pictures,
    Preferences,
    Public,
    Runtime,
    State,
    Templates,
    Videos,
}

/// Relies on `dirs::config_dir`: the platform's per-user configuration base
/// directory, or `None` when the platform cannot supply one.
#[verifier::external_body]
fn platform_config_dir() -> (r: Option<String>) {
    match dirs::config_dir() {
        Some(p) => Some(p.to_string_lossy().into_owned()),
        None => None,
    }
}

/// Relies on `dirs::cache_dir`: the platform's per-user cache base
/// directory, or `None` when the platform cannot supply one.
#[verifier::external_body]
fn platform_cache_dir() -> (r: Option<String>) {
    match dirs::cache_dir() {
        Some(p) => Some(p.to_string_lossy().into_owned()),
        None => None,
    }
}

/// Relies on `dirs::data_dir`: the platform's per-user (roaming) data base
/// directory, or `None` when the platform cannot supply one.
#[verifier::external_body]
fn platform_data_dir() -> (r: Option<String>) {
    match dirs::data_dir() {
        Some(p) => Some(p.to_string_lossy().into_owned()),
        None => None,
    }
}

/// Relies on `dirs::data_local_dir`: the platform's per-user local data base
/// directory, or `None` when the platform cannot supply one.
#[verifier::external_body]
fn platform_data_local_dir() -> (r: Option<String>) {
    match dirs::data_local_dir() {
        Some(p) => Some(p.to_string_lossy().into_owned()),
        None => None,
    }
}

/// Relies on `dirs::home_dir`: the current user's home directory, or `None`
/// when the platform cannot supply one.
#[verifier::external_body]
fn platform_home_dir() -> (r: Option<String>) {
    match dirs::home_dir() {
        Some(p) => Some(p.to_string_lossy().into_owned()),
        None => None,
    }
}

/// Relies on `dirs::audio_dir`: the user's audio directory, or `None` when
/// the platform cannot supply one.
#[verifier::external_body]
fn platform_audio_dir() -> (r: Option<String>) {
    match dirs::audio_dir() {
        Some(p) => Some(p.to_string_lossy().into_owned()),
        None => None,
    }
}

/// Relies on `dirs::desktop_dir`: the user's desktop directory, or `None`
/// when the platform cannot supply one.
#[verifier::external_body]
fn platform_desktop_dir() -> (r: Option<String>) {
    match dirs::desktop_dir() {
        Some(p) => Some(p.to_string_lossy().into_owned()),
        None => None,
    }
}

/// Relies on `dirs::document_dir`: the user's documents directory, or `None`
/// when the platform cannot supply one.
#[verifier::external_body]
fn platform_document_dir() -> (r: Option<String>) {
    match dirs::document_dir() {
        Some(p) => Some(p.to_string_lossy().into_owned()),
        None => None,
    }
}

/// Relies on `dirs::download_dir`: the user's downloads directory, or `None`
/// when the platform cannot supply one.
#[verifier::external_body]
fn platform_download_dir() -> (r: Option<String>) {
    match dirs::download_dir() {
        Some(p) => Some(p.to_string_lossy().into_owned()),
        None => None,
    }
}

/// Relies on `dirs::executable_dir`: the user's executables directory, or
/// `None` when the platform cannot supply one.
#[verifier::external_body]
fn platform_executable_dir() -> (r: Option<String>) {
    match dirs::executable_dir() {
        Some(p) => Some(p.to_string_lossy().into_owned()),
        None => None,
    }
}

/// Relies on `dirs::font_dir`: the user's fonts directory, or `None` when
/// the platform cannot supply one.
#[verifier::external_body]
fn platform_font_dir() -> (r: Option<String>) {
    match dirs::font_dir() {
        Some(p) => Some(p.to_string_lossy().into_owned()),
        None => None,
    }
}

/// Relies on `dirs::picture_dir`: the user's pictures directory, or `None`
/// when the platform cannot supply one.
#[verifier::external_body]
fn platform_picture_dir() -> (r: Option<String>) {
    match dirs::picture_dir() {
        Some(p) => Some(p.to_string_lossy().into_owned()),
        None => None,
    }
}

/// Relies on `dirs::preference_dir`: the user's preferences directory, or
/// `None` when the platform cannot supply one.
#[verifier::external_body]
fn platform_preference_dir() -> (r: Option<String>) {
    match dirs::preference_dir() {
        Some(p) => Some(p.to_string_lossy().into_owned()),
        None => None,
    }
}

/// Relies on `dirs::public_dir`: the user's public share directory, or
/// `None` when the platform cannot supply one.
#[verifier::external_body]
fn platform_public_dir() -> (r: Option<String>) {
    match dirs::public_dir() {
        Some(p) => Some(p.to_string_lossy().into_owned()),
        None => None,
    }
}

/// Relies on `dirs::runtime_dir`: the user's runtime directory, or `None`
/// when the platform cannot supply one.
#[verifier::external_body]
fn platform_runtime_dir() -> (r: Option<String>) {
    match dirs::runtime_dir() {
        Some(p) => Some(p.to_string_lossy().into_owned()),
        None => None,
    }
}

/// Relies on `dirs::state_dir`: the user's state directory, or `None` when
/// the platform cannot supply one.
#[verifier::external_body]
fn platform_state_dir() -> (r: Option<String>) {
    match dirs::state_dir() {
        Some(p) => Some(p.to_string_lossy().into_owned()),
        None => None,
    }
}

/// Relies on `dirs::template_dir`: the user's templates directory, or `None`
/// when the platform cannot supply one.
#[verifier::external_body]
fn platform_template_dir() -> (r: Option<String>) {
    match dirs::template_dir() {
        Some(p) => Some(p.to_string_lossy().into_owned()),
        None => None,
    }
}

/// Relies on `dirs::video_dir`: the user's videos directory, or `None` when
/// the platform cannot supply one.
#[verifier::external_body]
fn platform_video_dir() -> (r: Option<String>) {
    match dirs::video_dir() {
        Some(p) => Some(p.to_string_lossy().into_owned()),
        None => None,
    }
}

/// The base path the platform directory provider supplies for a directory
/// kind, or `None` when it has none.
fn platform_base_dir(kind: DirKind) -> (r: Option<String>) {
    match kind {
        DirKind::Config => platform_config_dir(),
        DirKind::Cache => platform_cache_dir(),
        DirKind::Data => platform_data_dir(),
        DirKind::DataLocal => platform_data_local_dir(),
        DirKind::Home => platform_home_dir(),
        DirKind::Audio => platform_audio_dir(),
        DirKind::Desktop => platform_desktop_dir(),
        DirKind::Documents => platform_document_dir(),
        DirKind::Downloads => platform_download_dir(),
        DirKind::Executables => platform_executable_dir(),
        DirKind::Fonts => platform_font_dir(),
        DirKind::Pictures => platform_picture_dir(),
        DirKind::Preferences => platform_preference_dir(),
        DirKind::Public => platform_public_dir(),
        DirKind::Runtime => platform_runtime_dir(),
        DirKind::State => platform_state_dir(),
        DirKind::Templates => platform_template_dir(),
        DirKind::Videos => platform_video_dir(),
    }
}

/// The rendered name of the active identifier, or the fixed default segment
/// when none is supplied.
pub open spec fn spec_active_name(name: Option<ProductNameModel>) -> Seq<char> {
    match name {
        Some(p) => spec_render_name(p),
        None => DEFAULT_PRODUCT_BASE@,
    }
}

/// An application directory: the provider's base path, then one segment
/// equal to the active identifier's rendered name.
pub open spec fn spec_app_dir(base: Seq<char>, name: Option<ProductNameModel>) -> Seq<char> {
    base + "/"@ + spec_active_name(name)
}

/// The configuration root below an application directory.
pub open spec fn spec_configs_root(base: Seq<char>, name: Option<ProductNameModel>) -> Seq<char> {
    spec_app_dir(base, name) + "/configs"@
}

/// The configuration file path for a named module.
pub open spec fn spec_config_path(
    base: Seq<char>,
    name: Option<ProductNameModel>,
    module: Seq<char>,
) -> Seq<char> {
    spec_configs_root(base, name) + "/"@ + module + ".toml"@
}

/// The log root below an application directory.
pub open spec fn spec_logs_root(base: Seq<char>, name: Option<ProductNameModel>) -> Seq<char> {
    spec_app_dir(base, name) + "/logs"@
}

/// The timestamped log file path below the log root.
pub open spec fn spec_log_path(
    base: Seq<char>,
    name: Option<ProductNameModel>,
    epoch_secs: u64,
) -> Seq<char> {
    spec_logs_root(base, name) + "/log_"@ + spec_decimal(epoch_secs as nat) + ".json"@
}

/// The application directory under an explicitly given base path: the base,
/// a separator, and the active identifier's rendered name.
pub fn app_dir_under(base: &str, name: Option<&ProductName>) -> (r: String)
    ensures
        r@ == spec_app_dir(base@, name.deep_view()),
{
    let mut r = base.to_owned();
    r.append("/");
    match name {
        Some(p) => {
            let n = p.render_name();
            r.append(n.as_str());
        },
        None => {
            r.append(DEFAULT_PRODUCT_BASE);
        },
    }
    r
}

/// The directory namespaced for the active identifier below the platform
/// base path for `kind`. Fails exactly when the platform provider has no
/// base path for `kind`.
pub fn application_directory(kind: DirKind, name: Option<&ProductName>) -> (r: Result<
    String,
    PathError,
>)
    ensures
        r matches Ok(s) ==> exists|base: Seq<char>|
            s@ == #[trigger] spec_app_dir(base, name.deep_view()),
        r matches Err(e) ==> e == PathError::UnresolvablePlatformPath,
{
    match platform_base_dir(kind) {
        None => Err(PathError::UnresolvablePlatformPath),
        Some(base) => {
            let r = app_dir_under(base.as_str(), name);
            proof {
                assert(r@ == spec_app_dir(base@, name.deep_view()));
            }
            Ok(r)
        },
    }
}

/// The root of the application's local data, namespaced for the active
/// identifier. Fails exactly when the platform provider has no local-data
/// base path.
pub fn data_root(name: Option<&ProductName>) -> (r: Result<String, PathError>)
    ensures
        r matches Ok(s) ==> exists|base: Seq<char>|
            s@ == #[trigger] spec_app_dir(base, name.deep_view()),
        r matches Err(e) ==> e == PathError::UnresolvablePlatformPath,
{
    application_directory(DirKind::DataLocal, name)
}

/// The configuration root: the data root joined with a fixed `configs`
/// segment. Fails exactly as [`data_root`] does.
pub fn configs_root(name: Option<&ProductName>) -> (r: Result<String, PathError>)
    ensures
        r matches Ok(s) ==> exists|base: Seq<char>|
            s@ == #[trigger] spec_configs_root(base, name.deep_view()),
        r matches Err(e) ==> e == PathError::UnresolvablePlatformPath,
{
    match data_root(name) {
        Err(e) => Err(e),
        Ok(mut d) => {
            proof {
                let base = choose|base: Seq<char>|
                    d@ == #[trigger] spec_app_dir(base, name.deep_view());
                assert(d@ + "/configs"@ == spec_configs_root(base, name.deep_view()));
            }
            d.append("/configs");
            Ok(d)
        },
    }
}

/// The configuration file path for a named module: the configuration root
/// joined with `{module}.toml`. The module name is not validated against
/// filesystem-unsafe characters; that is the caller's responsibility. Fails
/// exactly as [`data_root`] does.
pub fn config_path(name: Option<&ProductName>, module: &str) -> (r: Result<String, PathError>)
    ensures
        r matches Ok(s) ==> exists|base: Seq<char>|
            s@ == #[trigger] spec_config_path(base, name.deep_view(), module@),
        r matches Err(e) ==> e == PathError::UnresolvablePlatformPath,
{
    match configs_root(name) {
        Err(e) => Err(e),
        Ok(mut d) => {
            proof {
                let base = choose|base: Seq<char>|
                    d@ == #[trigger] spec_configs_root(base, name.deep_view());
                assert(d@ + "/"@ + module@ + ".toml"@ == spec_config_path(
                    base,
                    name.deep_view(),
                    module@,
                ));
            }
            d.append("/");
            d.append(module);
            d.append(".toml");
            Ok(d)
        },
    }
}

/// The log root: the data root joined with a fixed `logs` segment. Fails
/// exactly as [`data_root`] does.
pub fn logs_root(name: Option<&ProductName>) -> (r: Result<String, PathError>)
    ensures
        r matches Ok(s) ==> exists|base: Seq<char>|
            s@ == #[trigger] spec_logs_root(base, name.deep_view()),
        r matches Err(e) ==> e == PathError::UnresolvablePlatformPath,
{
    match data_root(name) {
        Err(e) => Err(e),
        Ok(mut d) => {
            proof {
                let base = choose|base: Seq<char>|
                    d@ == #[trigger] spec_app_dir(base, name.deep_view());
                assert(d@ + "/logs"@ == spec_logs_root(base, name.deep_view()));
            }
            d.append("/logs");
            Ok(d)
        },
    }
}

/// The log file path for a given timestamp: the log root joined with
/// `log_{epoch_secs}.json`. Fails exactly as [`data_root`] does.
pub fn log_path_at(name: Option<&ProductName>, epoch_secs: u64) -> (r: Result<String, PathError>)
    ensures
        r matches Ok(s) ==> exists|base: Seq<char>|
            s@ == #[trigger] spec_log_path(base, name.deep_view(), epoch_secs),
        r matches Err(e) ==> e == PathError::UnresolvablePlatformPath,
{
    match logs_root(name) {
        Err(e) => Err(e),
        Ok(mut d) => {
            let stamp = decimal_string(epoch_secs);
            proof {
                let base = choose|base: Seq<char>|
                    d@ == #[trigger] spec_logs_root(base, name.deep_view());
                assert(d@ + "/log_"@ + stamp@ + ".json"@ == spec_log_path(
                    base,
                    name.deep_view(),
                    epoch_secs,
                ));
            }
            d.append("/log_");
            d.append(stamp.as_str());
            d.append(".json");
            Ok(d)
        },
    }
}

/// The log file path stamped with the clock's current time. Fails when the
/// platform provider has no local-data base path or when the clock reads
/// earlier than the Unix epoch.
pub fn log_path(name: Option<&ProductName>) -> (r: Result<String, PathError>)
    ensures
        r matches Ok(s) ==> exists|base: Seq<char>, epoch_secs: u64|
            s@ == #[trigger] spec_log_path(base, name.deep_view(), epoch_secs),
        r matches Err(e) ==> (e == PathError::UnresolvablePlatformPath || e
            == PathError::ClockBeforeEpoch),
{
    match epoch() {
        None => Err(PathError::ClockBeforeEpoch),
        Some(t) => log_path_at(name, t),
    }
}

/// Declares `std::time::SystemTime`, an opaque measurement of the system
/// clock, so that clock readings can pass through here.
#[verifier::external_type_specification]
#[verifier::external_body]
pub struct ExSystemTime(std::time::SystemTime);

/// Relies on `std::time::SystemTime::now`: a reading of the system clock,
/// of which nothing can be promised.
pub assume_specification[ std::time::SystemTime::now ]() -> std::time::SystemTime;

/// Relies on `core::time::Duration::as_secs`: the span's whole seconds. The
/// span itself came from the clock, so nothing is promised of the number.
pub assume_specification[ core::time::Duration::as_secs ](d: &core::time::Duration) -> u64;

/// Relies on `std::time::SystemTime::duration_since`: the span from the Unix
/// epoch to `t`, or `None` when `t` lies before the epoch.
#[verifier::external_body]
fn duration_since_epoch(t: std::time::SystemTime) -> (r: Option<core::time::Duration>) {
    match t.duration_since(std::time::SystemTime::UNIX_EPOCH) {
        Ok(d) => Some(d),
        Err(_) => None,
    }
}

/// The clock's current time as whole seconds since the Unix epoch, or `None`
/// when the clock reads earlier than the epoch.
fn epoch() -> (r: Option<u64>) {
    match duration_since_epoch(std::time::SystemTime::now()) {
        Some(d) => Some(d.as_secs()),
        None => None,
    }
}

/// The shape of every configuration file path: below the given base stands
/// one directory named exactly as the active identifier renders, then a
/// `configs` directory, then the module's `.toml` file.
pub proof fn lemma_config_path_shape(
    base: Seq<char>,
    name: Option<ProductNameModel>,
    module: Seq<char>,
)
    ensures
        spec_config_path(base, name, module) == base + seq!['/'] + spec_active_name(name)
            + "/configs/"@ + module + ".toml"@,
{
    reveal_strlit("/");
    reveal_strlit("/configs");
    reveal_strlit("/configs/");
    assert(spec_config_path(base, name, module) =~= base + seq!['/'] + spec_active_name(name)
        + "/configs/"@ + module + ".toml"@);
}

} // verus!
