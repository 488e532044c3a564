use vstd::prelude::*;

verus! {

/// The next thing the driver of a build must do with the device, the shader set or the
/// description, and report back on.
#[derive(Clone, Copy, Debug, PartialEq, Eq, Structural)]
pub enum BuildStep {
    /// Load the shader set from the description.
    LoadShaderSet,
    /// Create the device layout of the descriptor set with this index.
    CreateSetLayout(usize),
    /// Create the pipeline layout from the set layouts and push-constant ranges.
    CreatePipelineLayout,
    /// Obtain the per-stage shader handles from the shader set.
    ResolveShaders,
    /// Create the graphics pipeline state object.
    CreateGraphicsPipeline,
    /// Run the description's own build step, which makes the user pipeline.
    BuildUserPipeline,
    /// Destroy the graphics pipeline state object.
    DestroyGraphicsPipeline,
    /// Destroy the pipeline layout.
    DestroyPipelineLayout,
    /// Drop the descriptor set layout handles created so far.
    ReleaseSetLayouts,
    /// Release the shader set.
    ReleaseShaderSet,
    /// The build succeeded: hand out the render group.
    Finish,
    /// The build failed: return the error.
    Fail,
}

/// The step of a build that failed.
#[derive(Clone, Copy, Debug, PartialEq, Eq, Structural)]
pub enum BuildFailure {
    SetLayout,
    PipelineLayout,
    ShadersIncomplete,
    GraphicsPipeline,
    UserBuild,
}

/// The state of one build of a render group. The driver performs `step`, then calls
/// `advance` with whether it succeeded.
#[derive(Clone, Copy, Debug, PartialEq, Eq, Structural)]
pub struct BuildSession {
    /// Number of descriptor sets in the pipeline layout.
    pub set_count: usize,
    /// What the driver must do next.
    pub step: BuildStep,
    /// Whether the shader set is loaded and not yet released.
    pub shader_set_live: bool,
    /// How many times the shader set was released.
    pub shader_set_releases: u8,
    /// Number of descriptor set layouts created and held.
    pub set_layouts: usize,
    /// Whether a pipeline layout exists that the build holds.
    pub pipeline_layout: bool,
    /// Whether a graphics pipeline exists that the build holds.
    pub graphics_pipeline: bool,
    /// Whether the user pipeline was built.
    pub user_pipeline: bool,
    /// The step that failed, once one has.
    pub failure: Option<BuildFailure>,
}

/// The state in which a build starts.
pub open spec fn initial(set_count: usize) -> BuildSession {
    BuildSession {
        set_count,
        step: BuildStep::LoadShaderSet,
        shader_set_live: false,
        shader_set_releases: 0,
        set_layouts: 0,
        pipeline_layout: false,
        graphics_pipeline: false,
        user_pipeline: false,
        failure: None,
    }
}

/// The first cleanup step after a failure, or on the way out: everything held is
/// released in the reverse order of its creation, the shader set last.
pub open spec fn cleanup_step(s: BuildSession) -> BuildStep {
    if s.graphics_pipeline {
        BuildStep::DestroyGraphicsPipeline
    } else if s.pipeline_layout {
        BuildStep::DestroyPipelineLayout
    } else if s.set_layouts > 0 {
        BuildStep::ReleaseSetLayouts
    } else if s.shader_set_live {
        BuildStep::ReleaseShaderSet
    } else {
        BuildStep::Fail
    }
}

/// The step after the descriptor set layouts created so far.
pub open spec fn after_set_layouts(s: BuildSession) -> BuildStep {
    if s.set_layouts < s.set_count {
        BuildStep::CreateSetLayout(s.set_layouts)
    } else {
        BuildStep::CreatePipelineLayout
    }
}

/// Records a failure of the pending step and turns to cleanup.
pub open spec fn failed(s: BuildSession, f: BuildFailure) -> BuildSession {
    let t = BuildSession { failure: Some(f), ..s };
    BuildSession { step: cleanup_step(t), ..t }
}

/// The state after the driver reports on the pending step: `ok` says whether it
/// succeeded. Steps that cannot fail ignore `ok`; a finished build stays as it is.
pub open spec fn next(s: BuildSession, ok: bool) -> BuildSession {
    match s.step {
        BuildStep::LoadShaderSet => {
            let t = BuildSession { shader_set_live: true, ..s };
            BuildSession { step: after_set_layouts(t), ..t }
        },
        BuildStep::CreateSetLayout(_) => {
            if ok {
                let t = BuildSession { set_layouts: (s.set_layouts + 1) as usize, ..s };
                BuildSession { step: after_set_layouts(t), ..t }
            } else {
                failed(s, BuildFailure::SetLayout)
            }
        },
        BuildStep::CreatePipelineLayout => {
            if ok {
                BuildSession { pipeline_layout: true, step: BuildStep::ResolveShaders, ..s }
            } else {
                failed(s, BuildFailure::PipelineLayout)
            }
        },
        BuildStep::ResolveShaders => {
            if ok {
                BuildSession { step: BuildStep::CreateGraphicsPipeline, ..s }
            } else {
                failed(s, BuildFailure::ShadersIncomplete)
            }
        },
        BuildStep::CreateGraphicsPipeline => {
            if ok {
                BuildSession { graphics_pipeline: true, step: BuildStep::BuildUserPipeline, ..s }
            } else {
                failed(s, BuildFailure::GraphicsPipeline)
            }
        },
        BuildStep::BuildUserPipeline => {
            if ok {
                BuildSession { user_pipeline: true, step: BuildStep::ReleaseShaderSet, ..s }
            } else {
                failed(s, BuildFailure::UserBuild)
            }
        },
        BuildStep::DestroyGraphicsPipeline => {
            let t = BuildSession { graphics_pipeline: false, ..s };
            BuildSession { step: cleanup_step(t), ..t }
        },
        BuildStep::DestroyPipelineLayout => {
            let t = BuildSession { pipeline_layout: false, ..s };
            BuildSession { step: cleanup_step(t), ..t }
        },
        BuildStep::ReleaseSetLayouts => {
            let t = BuildSession { set_layouts: 0, ..s };
            BuildSession { step: cleanup_step(t), ..t }
        },
        BuildStep::ReleaseShaderSet => {
            BuildSession {
                shader_set_live: false,
                shader_set_releases: (s.shader_set_releases + 1) as u8,
                step: if s.failure is Some {
                    BuildStep::Fail
                } else {
                    BuildStep::Finish
                },
                ..s
            }
        },
        BuildStep::Finish => s,
        BuildStep::Fail => s,
    }
}

/// The state after the driver reports the outcomes `oks`, one per step, in order.
pub open spec fn run(s: BuildSession, oks: Seq<bool>) -> BuildSession
    decreases oks.len(),
{
    if oks.len() == 0 {
        s
    } else {
        run(next(s, oks[0]), oks.drop_first())
    }
}

impl BuildSession {
    /// The consistency of a build's state: what the pending step acts on exists, the
    /// shader set is released at most once and only after it was loaded, and the
    /// terminal steps are reached exactly as described below.
    pub open spec fn wf(self) -> bool {
        &&& self.set_layouts <= self.set_count
        &&& self.shader_set_releases <= 1
        &&& (self.shader_set_live ==> self.shader_set_releases == 0)
        &&& (self.step is LoadShaderSet ==> self == initial(self.set_count))
        &&& (!(self.step is LoadShaderSet) ==> self.shader_set_live || self.shader_set_releases == 1)
        &&& (self.graphics_pipeline ==> self.pipeline_layout)
        &&& (self.pipeline_layout ==> self.set_layouts == self.set_count)
        &&& (self.user_pipeline ==> self.graphics_pipeline && self.failure is None)
        &&& (self.failure is Some ==> self.step == cleanup_step(self) && !self.user_pipeline)
        &&& (self.failure is None ==> !(self.step is Fail) && !(self.step is DestroyGraphicsPipeline)
            && !(self.step is DestroyPipelineLayout) && !(self.step is ReleaseSetLayouts))
        &&& (self.step is CreateSetLayout ==> self.step == BuildStep::CreateSetLayout(self.set_layouts)
            && self.set_layouts < self.set_count && self.shader_set_live && !self.pipeline_layout)
        &&& (self.step is CreatePipelineLayout ==> self.set_layouts == self.set_count
            && self.shader_set_live && !self.pipeline_layout)
        &&& (self.step is ResolveShaders ==> self.pipeline_layout && !self.graphics_pipeline
            && self.shader_set_live)
        &&& (self.step is CreateGraphicsPipeline ==> self.pipeline_layout && !self.graphics_pipeline
            && self.shader_set_live)
        &&& (self.step is BuildUserPipeline ==> self.graphics_pipeline && !self.user_pipeline
            && self.shader_set_live)
        &&& (self.step is ReleaseShaderSet ==> self.shader_set_live)
        &&& (self.failure is None && self.step is ReleaseShaderSet ==> self.user_pipeline)
        &&& (self.step is Finish ==> self.user_pipeline && self.failure is None && !self.shader_set_live)
        &&& (self.step is Fail ==> self.failure is Some && !self.shader_set_live)
    }

    /// A build of a pipeline with `set_count` descriptor sets, about to load its
    /// shader set.
    pub fn new(set_count: usize) -> (r: BuildSession)
        ensures
            r == initial(set_count),
            r.wf(),
    {
        BuildSession {
            set_count,
            step: BuildStep::LoadShaderSet,
            shader_set_live: false,
            shader_set_releases: 0,
            set_layouts: 0,
            pipeline_layout: false,
            graphics_pipeline: false,
            user_pipeline: false,
            failure: None,
        }
    }

    /// Whether the build is over, successfully or not.
    pub fn is_done(&self) -> (r: bool)
        ensures
            r == (self.step is Finish || self.step is Fail),
    {
        match self.step {
            BuildStep::Finish | BuildStep::Fail => true,
            _ => false,
        }
    }

    fn cleanup(&self) -> (r: BuildStep)
        ensures
            r == cleanup_step(*self),
    {
        if self.graphics_pipeline {
            BuildStep::DestroyGraphicsPipeline
        } else if self.pipeline_layout {
            BuildStep::DestroyPipelineLayout
        } else if self.set_layouts > 0 {
            BuildStep::ReleaseSetLayouts
        } else if self.shader_set_live {
            BuildStep::ReleaseShaderSet
        } else {
            BuildStep::Fail
        }
    }

    fn fail(&mut self, f: BuildFailure)
        ensures
            *final(self) == failed(*old(self), f),
    {
        self.failure = Some(f);
        self.step = self.cleanup();
    }

    fn next_set_step(&self) -> (r: BuildStep)
        ensures
            r == after_set_layouts(*self),
    {
        if self.set_layouts < self.set_count {
            BuildStep::CreateSetLayout(self.set_layouts)
        } else {
            BuildStep::CreatePipelineLayout
        }
    }

    /// Takes the driver's report on the pending step (`ok`: it succeeded) and returns
    /// the step to perform next. A failure records which step failed and turns to
    /// releasing what the build holds, newest first, the shader set last.
    pub fn advance(&mut self, ok: bool) -> (r: BuildStep)
        requires
            old(self).wf(),
        ensures
            *final(self) == next(*old(self), ok),
            final(self).wf(),
            r == final(self).step,
    {
        match self.step {
            BuildStep::LoadShaderSet => {
                self.shader_set_live = true;
                self.step = self.next_set_step();
            },
            BuildStep::CreateSetLayout(_) => {
                if ok {
                    self.set_layouts = self.set_layouts + 1;
                    self.step = self.next_set_step();
                } else {
                    self.fail(BuildFailure::SetLayout);
                }
            },
            BuildStep::CreatePipelineLayout => {
                if ok {
                    self.pipeline_layout = true;
                    self.step = BuildStep::ResolveShaders;
                } else {
                    self.fail(BuildFailure::PipelineLayout);
                }
            },
            BuildStep::ResolveShaders => {
                if ok {
                    self.step = BuildStep::CreateGraphicsPipeline;
                } else {
                    self.fail(BuildFailure::ShadersIncomplete);
                }
            },
            BuildStep::CreateGraphicsPipeline => {
                if ok {
                    self.graphics_pipeline = true;
                    self.step = BuildStep::BuildUserPipeline;
                } else {
                    self.fail(BuildFailure::GraphicsPipeline);
                }
            },
            BuildStep::BuildUserPipeline => {
                if ok {
                    self.user_pipeline = true;
                    self.step = BuildStep::ReleaseShaderSet;
                } else {
                    self.fail(BuildFailure::UserBuild);
                }
            },
            BuildStep::DestroyGraphicsPipeline => {
                self.graphics_pipeline = false;
                self.step = self.cleanup();
            },
            BuildStep::DestroyPipelineLayout => {
                self.pipeline_layout = false;
                self.step = self.cleanup();
            },
            BuildStep::ReleaseSetLayouts => {
                self.set_layouts = 0;
                self.step = self.cleanup();
            },
            BuildStep::ReleaseShaderSet => {
                self.shader_set_live = false;
                self.shader_set_releases = self.shader_set_releases + 1;
                self.step = if self.failure.is_some() {
                    BuildStep::Fail
                } else {
                    BuildStep::Finish
                };
            },
            BuildStep::Finish => {},
            BuildStep::Fail => {},
        }
        self.step
    }
}


/// One report keeps a build's state consistent and its set count unchanged.
pub proof fn lemma_next_wf(s: BuildSession, ok: bool)
    requires
        s.wf(),
    ensures
        next(s, ok).wf(),
        next(s, ok).set_count == s.set_count,
{
}

/// Any sequence of reports keeps a build's state consistent and its set count
/// unchanged.
pub proof fn lemma_run_wf(s: BuildSession, oks: Seq<bool>)
    requires
        s.wf(),
    ensures
        run(s, oks).wf(),
        run(s, oks).set_count == s.set_count,
    decreases oks.len(),
{
    if oks.len() > 0 {
        lemma_next_wf(s, oks[0]);
        lemma_run_wf(next(s, oks[0]), oks.drop_first());
    }
}

/// Whatever the device, the shader set and the description report, a build that
/// ends has released its shader set exactly once. One that fails has recorded the
/// step that failed and holds no graphics pipeline, no pipeline layout, no descriptor
/// set layout and no user pipeline. One that succeeds holds the graphics pipeline, the
/// pipeline layout, every descriptor set layout and the user pipeline.
pub proof fn lemma_build_outcome(set_count: usize, oks: Seq<bool>)
    ensures
        run(initial(set_count), oks).step is Fail ==> {
            let t = run(initial(set_count), oks);
            &&& t.shader_set_releases == 1
            &&& !t.shader_set_live
            &&& t.failure is Some
            &&& !t.graphics_pipeline
            &&& !t.pipeline_layout
            &&& t.set_layouts == 0
            &&& !t.user_pipeline
        },
        run(initial(set_count), oks).step is Finish ==> {
            let t = run(initial(set_count), oks);
            &&& t.shader_set_releases == 1
            &&& !t.shader_set_live
            &&& t.failure is None
            &&& t.graphics_pipeline
            &&& t.pipeline_layout
            &&& t.set_layouts == set_count
            &&& t.user_pipeline
        },
        run(initial(set_count), oks).shader_set_releases <= 1,
{
    lemma_run_wf(initial(set_count), oks);
}


/// The first failure is the one a build reports: once a step has failed, no later
/// report changes the recorded failure.
pub proof fn lemma_first_failure_kept(s: BuildSession, oks: Seq<bool>)
    requires
        s.wf(),
        s.failure is Some,
    ensures
        run(s, oks).failure == s.failure,
    decreases oks.len(),
{
    if oks.len() > 0 {
        lemma_next_wf(s, oks[0]);
        lemma_first_failure_kept(next(s, oks[0]), oks.drop_first());
    }
}

/// An upper bound on the reports a build still takes before it ends.
pub open spec fn steps_left(s: BuildSession) -> int {
    match s.step {
        BuildStep::LoadShaderSet => s.set_count + 9,
        BuildStep::CreateSetLayout(k) => s.set_count - k + 8,
        BuildStep::CreatePipelineLayout => 8,
        BuildStep::ResolveShaders => 7,
        BuildStep::CreateGraphicsPipeline => 6,
        BuildStep::BuildUserPipeline => 5,
        BuildStep::DestroyGraphicsPipeline => 4,
        BuildStep::DestroyPipelineLayout => 3,
        BuildStep::ReleaseSetLayouts => 2,
        BuildStep::ReleaseShaderSet => 1,
        BuildStep::Finish => 0,
        BuildStep::Fail => 0,
    }
}

proof fn lemma_steps_left(s: BuildSession, oks: Seq<bool>)
    requires
        s.wf(),
        oks.len() >= steps_left(s),
    ensures
        run(s, oks).step is Finish || run(s, oks).step is Fail,
    decreases oks.len(),
{
    if oks.len() > 0 {
        lemma_next_wf(s, oks[0]);
        lemma_steps_left(next(s, oks[0]), oks.drop_first());
    }
}

/// Every build ends: with `n` descriptor sets, after at most `n + 9` reports the build
/// has finished or failed.
pub proof fn lemma_build_ends(set_count: usize, oks: Seq<bool>)
    requires
        oks.len() >= set_count + 9,
    ensures
        run(initial(set_count), oks).step is Finish || run(initial(set_count), oks).step is Fail,
{
    lemma_steps_left(initial(set_count), oks);
}

} // verus!
