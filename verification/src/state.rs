//! Application state: the database, and the projects whose jobs are
//! running in this process.  At most one job runs per project at a time.

use vstd::prelude::*;

use crate::error::AppError;
use crate::repository::{AppSettingsRepository, Database, ProjectRepository, ProofreadingRepository};
use crate::text::owned;

verus! {

/// Projects with a job running in this process, held in a hash set of
/// their identifiers.
pub struct ActiveProjects {
    ids: vstd::hash_set::StringHashSet,
}

impl ActiveProjects {
    /// The set of active project identifiers.
    pub closed spec fn active(&self) -> Set<Seq<char>> {
        self.ids@
    }

    /// No project is active.
    pub fn new() -> (r: Self)
        ensures
            r.active() == Set::<Seq<char>>::empty(),
    {
        ActiveProjects { ids: vstd::hash_set::StringHashSet::new() }
    }

    /// Whether a job of the project is running.
    pub fn is_project_active(&self, project_id: &str) -> (r: bool)
        ensures
            r == self.active().contains(project_id@),
    {
        self.ids.contains(project_id)
    }

    /// Marks a project as running.  Fails (returns `false`, changing
    /// nothing) when it already is.
    pub fn acquire_project(&mut self, project_id: &str) -> (r: bool)
        ensures
            r == !old(self).active().contains(project_id@),
            final(self).active() == old(self).active().insert(project_id@),
    {
        self.ids.insert(owned(project_id))
    }

    /// Marks a project as no longer running.
    pub fn release_project(&mut self, project_id: &str)
        ensures
            final(self).active() == old(self).active().remove(project_id@),
    {
        self.ids.remove(project_id);
    }
}

/// Marking a project as running and then as no longer running leaves the
/// set of running projects as it was, when the project was not running.
pub proof fn acquire_then_release(before: Set<Seq<char>>, project_id: Seq<char>)
    requires
        !before.contains(project_id),
    ensures
        before.insert(project_id).remove(project_id) == before,
{
    assert(before.insert(project_id).remove(project_id) =~= before);
}

/// Shared state of the application.
pub struct AppState {
    pub db: Database,
    pub active_projects: ActiveProjects,
}

impl AppState {
    /// State over the given database, with no project running.
    pub fn new(db: Database) -> (r: Self)
        ensures
            r.db == db,
            r.active_projects.active() == Set::<Seq<char>>::empty(),
    {
        AppState { db, active_projects: ActiveProjects::new() }
    }

    /// The project repository over the state's database.
    pub fn project_repository(&self) -> (r: ProjectRepository)
        ensures
            r.db == self.db,
    {
        ProjectRepository::new(self.db.copy())
    }

    /// The settings repository over the state's database.
    pub fn app_settings_repository(&self) -> (r: AppSettingsRepository)
        ensures
            r.db == self.db,
    {
        AppSettingsRepository::new(self.db.copy())
    }

    /// The proofreading repository over the state's database.
    pub fn proofreading_repository(&self) -> (r: ProofreadingRepository)
        ensures
            r.db == self.db,
    {
        ProofreadingRepository::new(self.db.copy())
    }

    /// Whether a job of the project is running in this process.
    pub fn is_project_active(&self, project_id: &str) -> (r: bool)
        ensures
            r == self.active_projects.active().contains(project_id@),
    {
        self.active_projects.is_project_active(project_id)
    }

    /// Forgets that a project is running.
    pub fn release_project(&mut self, project_id: &str)
        ensures
            final(self).db == old(self).db,
            final(self).active_projects.active() == old(self).active_projects.active().remove(
                project_id@,
            ),
    {
        self.active_projects.release_project(project_id)
    }

    /// Marks a project as running, unless it already is (`false`).
    pub fn acquire_project(&mut self, project_id: &str) -> (r: bool)
        ensures
            final(self).db == old(self).db,
            r == !old(self).active_projects.active().contains(project_id@),
            final(self).active_projects.active() == old(self).active_projects.active().insert(
                project_id@,
            ),
    {
        self.active_projects.acquire_project(project_id)
    }
}

/// A project can be deleted only while no job of it runs
/// (`project_processing` otherwise).
pub fn check_deletable(active: bool) -> (r: Result<(), AppError>)
    ensures
        r is Ok <==> !active,
        r matches Err(e) ==> e.code@ == "project_processing"@,
{
    if active {
        return Err(AppError::new("project_processing", owned("项目正在后台处理中，暂不允许删除")));
    }
    Ok(())
}

/// Answer to the health check.
#[derive(Debug)]
pub struct HealthCheck {
    pub name: String,
    pub version: String,
    pub status: String,
}

/// The health check of a running application of the given version.
pub fn health_check(version: &str) -> (r: HealthCheck)
    ensures
        r.name@ == "ProofDesk"@,
        r.version@ == version@,
        r.status@ == "ok"@,
{
    HealthCheck { name: owned("ProofDesk"), version: owned(version), status: owned("ok") }
}

} // verus!
