//! Batch subsystem: the table of applications, which of them runs next, and
//! where its image, its stack and its first trap context go.
use crate::sync::UPSafeCell;
use crate::trap::context::{trap_context_size, TrapContext};
use vstd::prelude::*;

verus! {

/// Size of the user stack, in bytes.
pub const USER_STACK_SIZE: usize = 4096 * 2;
/// Size of the kernel stack, in bytes.
pub const KERNEL_STACK_SIZE: usize = 4096 * 2;
/// Most applications the batch table can hold.
pub const MAX_APP_NUM: usize = 16;
/// Entries of the start table: one start per application and the end of the last.
pub const APP_TABLE_LEN: usize = MAX_APP_NUM + 1;
/// Address at which every application is loaded and started.
pub const APP_BASE_ADDRESS: usize = 0x80400000;
/// Size of the area that is cleared before an application is loaded.
pub const APP_SIZE_LIMIT: usize = 0x20000;

/// Alignment of both stacks: they start on a page boundary.
pub const STACK_ALIGN: usize = 4096;

/// The kernel stack, given by the address of its lowest byte.
#[derive(Clone, Copy, Debug)]
pub struct KernelStack {
    pub base: usize,
}

/// The user stack, given by the address of its lowest byte.
#[derive(Clone, Copy, Debug)]
pub struct UserStack {
    pub base: usize,
}

impl KernelStack {
    /// Whether the stack starts on a page boundary and lies below the top
    /// of the address space.
    pub open spec fn fits(&self) -> bool {
        &&& self.base % STACK_ALIGN == 0
        &&& self.base + KERNEL_STACK_SIZE <= usize::MAX
    }

    /// The stack grows downward: its top is the base plus its size.
    pub fn get_sp(&self) -> (sp: usize)
        requires
            self.fits(),
        ensures
            sp == self.base + KERNEL_STACK_SIZE,
            sp % STACK_ALIGN == 0,
    {
        self.base + KERNEL_STACK_SIZE
    }

    /// Address at which a trap context is pushed on the empty stack: the
    /// context ends at the top of the stack, and lies wholly within it.
    pub fn push_context(&self) -> (addr: usize)
        requires
            self.fits(),
        ensures
            addr + trap_context_size() == self.base + KERNEL_STACK_SIZE,
            self.base <= addr,
    {
        let size = TrapContext::size_in_bytes();
        self.get_sp() - size
    }
}

impl UserStack {
    /// Whether the stack starts on a page boundary and lies below the top
    /// of the address space.
    pub open spec fn fits(&self) -> bool {
        &&& self.base % STACK_ALIGN == 0
        &&& self.base + USER_STACK_SIZE <= usize::MAX
    }

    /// The stack grows downward: its top is the base plus its size.
    pub fn get_sp(&self) -> (sp: usize)
        requires
            self.fits(),
        ensures
            sp == self.base + USER_STACK_SIZE,
            sp % STACK_ALIGN == 0,
    {
        self.base + USER_STACK_SIZE
    }
}

} // verus!

verus! {

/// Where an application's image lies, as the start table gives it.
#[derive(Clone, Copy, Debug, PartialEq, Eq)]
pub struct AppImage {
    /// Address of the first byte of the image.
    pub src: usize,
    /// Length of the image, in bytes.
    pub len: usize,
}

/// One line of the application table: its number and its bounds.
#[derive(Clone, Copy, Debug, PartialEq, Eq)]
pub struct AppInfo {
    pub id: usize,
    pub start: usize,
    pub end: usize,
}

/// Batch OS app manager.
pub struct AppManager {
    /// Number of applications.
    num_app: usize,
    /// The application that runs next.
    current_app: usize,
    /// Each application's start address, then the end address of the last one.
    app_start: [usize; APP_TABLE_LEN],
}

/// The state of an [`AppManager`].
pub struct AppManagerView {
    pub num_app: nat,
    pub current_app: nat,
    pub app_start: Seq<usize>,
}

impl View for AppManager {
    type V = AppManagerView;

    closed spec fn view(&self) -> AppManagerView {
        AppManagerView {
            num_app: self.num_app as nat,
            current_app: self.current_app as nat,
            app_start: self.app_start@,
        }
    }
}

impl AppManagerView {
    /// The table holds at most [`MAX_APP_NUM`] applications, and the next
    /// application to run is one of them or the end of the table.
    pub open spec fn wf(self) -> bool {
        &&& self.current_app <= self.num_app <= MAX_APP_NUM
        &&& self.app_start.len() == APP_TABLE_LEN
    }

    /// Whether every image of the table has its end at or after its start.
    pub open spec fn table_ordered(self) -> bool {
        forall|id: nat| #[trigger] self.image_ordered(id)
    }

    /// Whether the image of application `id` has its end at or after its start.
    pub open spec fn image_ordered(self, id: nat) -> bool {
        id < self.num_app ==> self.app_start[id as int] <= self.app_start[id + 1int]
    }

    /// The image of application `id`, for `id < num_app`.
    pub open spec fn image(self, id: nat) -> AppImage {
        AppImage {
            src: self.app_start[id as int],
            len: (self.app_start[id + 1int] - self.app_start[id as int]) as usize,
        }
    }

    /// The line that describes application `id`.
    pub open spec fn info(self, id: nat) -> AppInfo {
        AppInfo { id: id as usize, start: self.app_start[id as int], end: self.app_start[id + 1int] }
    }
}

/// The start table of a manager built from `num_app` and its bounds
/// `starts`: the bounds first, then zeros.
pub open spec fn start_table(num_app: nat, starts: Seq<usize>) -> Seq<usize> {
    Seq::new(APP_TABLE_LEN as nat, |i: int| if i <= num_app { starts[i] } else { 0usize })
}

impl AppManager {
    /// The manager of `num_app` applications whose bounds are `starts`: the
    /// start of each application, then the end of the last.  The first
    /// application runs first.
    pub fn new(num_app: usize, starts: &[usize]) -> (m: Self)
        requires
            num_app <= MAX_APP_NUM,
            starts@.len() == num_app + 1,
        ensures
            m@.wf(),
            m@.num_app == num_app,
            m@.current_app == 0,
            m@.app_start == start_table(num_app as nat, starts@),
            m@.app_start.len() == APP_TABLE_LEN,
            forall|i: int| 0 <= i <= num_app ==> #[trigger] m@.app_start[i] == starts@[i],
            forall|i: int| num_app < i < APP_TABLE_LEN ==> #[trigger] m@.app_start[i] == 0,
            m@.table_ordered() <==> forall|i: int|
                0 <= i < num_app ==> #[trigger] starts@[i] <= starts@[i + 1],
    {
        let mut app_start = [0usize; APP_TABLE_LEN];
        let mut i: usize = 0;
        while i <= num_app
            invariant
                num_app <= MAX_APP_NUM,
                starts@.len() == num_app + 1,
                i <= num_app + 1,
                forall|j: int| 0 <= j < i ==> app_start@[j] == starts@[j],
                forall|j: int| i <= j < APP_TABLE_LEN ==> app_start@[j] == 0,
            decreases num_app + 1 - i,
        {
            app_start[i] = starts[i];
            i = i + 1;
        }
        let m = AppManager { num_app, current_app: 0, app_start };
        assert(m@.app_start =~= start_table(num_app as nat, starts@));
        assert(m@.table_ordered() <==> forall|i: int|
            0 <= i < num_app ==> #[trigger] starts@[i] <= starts@[i + 1]) by {
            if m@.table_ordered() {
                assert forall|i: int| 0 <= i < num_app implies #[trigger] starts@[i] <= starts@[i + 1] by {
                    assert(m@.image_ordered(i as nat));
                }
            }
        }
        m
    }

    /// The lines that describe the applications, in order.
    pub fn log_app_info(&self) -> (infos: Vec<AppInfo>)
        requires
            self@.wf(),
        ensures
            infos@.len() == self@.num_app,
            forall|i: int| 0 <= i < infos@.len() ==> infos@[i] == self@.info(i as nat),
            forall|i: int|
                0 <= i < infos@.len() ==> {
                    &&& #[trigger] infos@[i].id == i
                    &&& infos@[i].start == self@.app_start[i]
                    &&& infos@[i].end == self@.app_start[i + 1]
                },
    {
        let mut infos: Vec<AppInfo> = Vec::new();
        let mut i: usize = 0;
        while i < self.num_app
            invariant
                self@.wf(),
                i <= self@.num_app,
                infos@.len() == i,
                forall|j: int| 0 <= j < i ==> infos@[j] == self@.info(j as nat),
            decreases self@.num_app - i,
        {
            infos.push(AppInfo { id: i, start: self.app_start[i], end: self.app_start[i + 1] });
            i = i + 1;
        }
        infos
    }

    /// The image of application `app_id`, or `None` when every application
    /// has completed (`app_id` is past the last one), where the kernel shuts
    /// down.
    pub fn load_app(&self, app_id: usize) -> (image: Option<AppImage>)
        requires
            self@.wf(),
            self@.image_ordered(app_id as nat),
        ensures
            image is None <==> app_id >= self@.num_app,
            image matches Some(img) ==> img == self@.image(app_id as nat),
            image matches Some(img) ==> {
                &&& img.src == self@.app_start[app_id as int]
                &&& img.len == self@.app_start[app_id + 1int] - self@.app_start[app_id as int]
            },
    {
        if app_id >= self.num_app {
            None
        } else {
            let src = self.app_start[app_id];
            Some(AppImage { src, len: self.app_start[app_id + 1] - src })
        }
    }

    /// The application that runs next.
    pub fn get_current_app(&self) -> (id: usize)
        ensures
            id == self@.current_app,
    {
        self.current_app
    }

    /// Moves on to the next application.
    pub fn move_to_next_app(&mut self)
        requires
            old(self)@.current_app < usize::MAX,
        ensures
            final(self)@.current_app == old(self)@.current_app + 1,
            final(self)@.num_app == old(self)@.num_app,
            final(self)@.app_start == old(self)@.app_start,
    {
        self.current_app = self.current_app + 1;
    }
}

} // verus!

verus! {

/// What the memory at [`APP_BASE_ADDRESS`] holds once `image` is loaded
/// there over `before`: the image, then zeros up to [`APP_SIZE_LIMIT`], then
/// what was there.
pub open spec fn loaded_area(before: Seq<u8>, image: Seq<u8>) -> Seq<u8> {
    Seq::new(
        before.len(),
        |i: int|
            if i < image.len() {
                image[i]
            } else if i < APP_SIZE_LIMIT {
                0u8
            } else {
                before[i]
            },
    )
}

/// Loads an application image into `area`, the memory that starts at
/// [`APP_BASE_ADDRESS`]: clears the first [`APP_SIZE_LIMIT`] bytes, then
/// copies the image to the start.
pub fn load_app_image(area: &mut [u8], image: &[u8])
    requires
        old(area)@.len() >= APP_SIZE_LIMIT,
        old(area)@.len() >= image@.len(),
    ensures
        final(area)@ == loaded_area(old(area)@, image@),
        final(area)@.len() == old(area)@.len(),
        forall|i: int| 0 <= i < image@.len() ==> #[trigger] final(area)@[i] == image@[i],
        forall|i: int| image@.len() <= i < APP_SIZE_LIMIT ==> #[trigger] final(area)@[i] == 0u8,
        forall|i: int|
            APP_SIZE_LIMIT <= i < old(area)@.len() && image@.len() <= i ==> #[trigger] final(area)@[i]
                == old(area)@[i],
{
    let mut i: usize = 0;
    while i < APP_SIZE_LIMIT
        invariant
            area@.len() == old(area)@.len(),
            area@.len() >= APP_SIZE_LIMIT,
            i <= APP_SIZE_LIMIT,
            forall|j: int| 0 <= j < i ==> area@[j] == 0u8,
            forall|j: int| i <= j < area@.len() ==> area@[j] == old(area)@[j],
        decreases APP_SIZE_LIMIT - i,
    {
        area[i] = 0u8;
        i = i + 1;
    }
    let mut k: usize = 0;
    while k < image.len()
        invariant
            area@.len() == old(area)@.len(),
            area@.len() >= APP_SIZE_LIMIT,
            area@.len() >= image@.len(),
            k <= image@.len(),
            forall|j: int| 0 <= j < k ==> area@[j] == image@[j],
            forall|j: int| k <= j < APP_SIZE_LIMIT ==> area@[j] == 0u8,
            forall|j: int| APP_SIZE_LIMIT <= j < area@.len() && j >= k ==> area@[j] == old(area)@[j],
        decreases image@.len() - k,
    {
        area[k] = image[k];
        k = k + 1;
    }
    assert(area@ =~= loaded_area(old(area)@, image@));
}

} // verus!

verus! {

/// What the kernel is to do to run the next application.
#[derive(Clone, Copy, Debug, PartialEq, Eq)]
pub enum RunStep {
    /// Every application has completed: shut the machine down, reporting
    /// a failure when `failure` is set.
    Shutdown { failure: bool },
    /// Load `image` at [`APP_BASE_ADDRESS`] (with [`load_app_image`]), store
    /// `context` at `context_addr` on the kernel stack, and restore it.
    Run { app_id: usize, image: AppImage, context: TrapContext, context_addr: usize },
}

/// The application that the next run step starts, if any.
pub open spec fn next_run(m: AppManagerView) -> Option<nat> {
    if m.current_app < m.num_app {
        Some(m.current_app)
    } else {
        None
    }
}

/// Whether the two stacks share no byte.
pub open spec fn stacks_disjoint(kernel_stack: KernelStack, user_stack: UserStack) -> bool {
    ||| kernel_stack.base + KERNEL_STACK_SIZE <= user_stack.base
    ||| user_stack.base + USER_STACK_SIZE <= kernel_stack.base
}

/// The state of the manager after a run step.
pub open spec fn after_run(m: AppManagerView) -> AppManagerView {
    if m.current_app < m.num_app {
        AppManagerView { current_app: m.current_app + 1, ..m }
    } else {
        m
    }
}

impl AppManager {
    /// Decides how to run the next application: its image, and the trap
    /// context that starts it at [`APP_BASE_ADDRESS`] in User mode on the
    /// user stack, pushed on the kernel stack; `sstatus` is the value of the
    /// CSR at this point.  When no application is left, the step is a
    /// normal [`RunStep::Shutdown`] and the manager is unchanged.
    pub fn run_next_app(
        &mut self,
        kernel_stack: &KernelStack,
        user_stack: &UserStack,
        sstatus: usize,
    ) -> (step: RunStep)
        requires
            old(self)@.wf(),
            old(self)@.image_ordered(old(self)@.current_app),
            kernel_stack.fits(),
            user_stack.fits(),
            stacks_disjoint(*kernel_stack, *user_stack),
        ensures
            final(self)@.wf(),
            final(self)@ == after_run(old(self)@),
            step is Shutdown <==> next_run(old(self)@) is None,
            step is Shutdown ==> step == (RunStep::Shutdown { failure: false }),
            step matches RunStep::Run { app_id, image, context, context_addr } ==> {
                &&& next_run(old(self)@) == Some(app_id as nat)
                &&& image == old(self)@.image(app_id as nat)
                &&& image.src == old(self)@.app_start[app_id as int]
                &&& image.len == old(self)@.app_start[app_id + 1int] - old(self)@.app_start[app_id as int]
                &&& TrapContext::is_app_init_context(
                    context,
                    APP_BASE_ADDRESS,
                    (user_stack.base + USER_STACK_SIZE) as usize,
                    sstatus,
                )
                &&& context_addr == kernel_stack.base + KERNEL_STACK_SIZE - trap_context_size()
                &&& context_addr + trap_context_size() <= user_stack.base
                    || user_stack.base + USER_STACK_SIZE <= context_addr
            },
    {
        let current_app = self.get_current_app();
        match self.load_app(current_app) {
            None => RunStep::Shutdown { failure: false },
            Some(image) => {
                self.move_to_next_app();
                let context = TrapContext::app_init_context(APP_BASE_ADDRESS, user_stack.get_sp(), sstatus);
                let context_addr = kernel_stack.push_context();
                let step = RunStep::Run { app_id: current_app, image, context, context_addr };
                assert(self@ =~= after_run(old(self)@));
                step
            },
        }
    }
}

/// The applications that `k` run steps start, one after the other, from
/// the state `m` (`None` for a step that shuts down).
pub open spec fn run_sequence(m: AppManagerView, k: nat) -> Seq<Option<nat>>
    decreases k,
{
    if k == 0 {
        Seq::empty()
    } else {
        seq![next_run(m)] + run_sequence(after_run(m), (k - 1) as nat)
    }
}

/// Batch processing: from a fresh manager, the run steps start every
/// application exactly once, in the order of the table, and every step after
/// the last application shuts down.
pub proof fn lemma_batch_runs_each_app_once_in_order(m: AppManagerView, k: nat)
    requires
        m.current_app == 0,
    ensures
        run_sequence(m, k).len() == k,
        forall|i: int|
            0 <= i < k ==> #[trigger] run_sequence(m, k)[i] == if i < m.num_app {
                Some(i as nat)
            } else {
                None
            },
{
    lemma_run_sequence_from(m, k);
}

proof fn lemma_run_sequence_from(m: AppManagerView, k: nat)
    requires
        m.current_app <= m.num_app,
    ensures
        run_sequence(m, k).len() == k,
        forall|i: int|
            0 <= i < k ==> #[trigger] run_sequence(m, k)[i] == if m.current_app + i < m.num_app {
                Some((m.current_app + i) as nat)
            } else {
                None
            },
    decreases k,
{
    if k > 0 {
        lemma_run_sequence_from(after_run(m), (k - 1) as nat);
        let rest = run_sequence(after_run(m), (k - 1) as nat);
        assert forall|i: int| 0 <= i < k implies #[trigger] run_sequence(m, k)[i] == if m.current_app + i
            < m.num_app {
            Some((m.current_app + i) as nat)
        } else {
            None
        } by {
            if i > 0 {
                assert(run_sequence(m, k)[i] == rest[i - 1]);
            }
        }
    }
}

} // verus!

verus! {

/// Initializes the batch subsystem: the lines that describe the
/// applications, to be logged.
pub fn init(manager: &mut UPSafeCell<AppManager>) -> (infos: Vec<AppInfo>)
    requires
        old(manager)@@.wf(),
    ensures
        final(manager)@@ == old(manager)@@,
        infos@.len() == old(manager)@@.num_app,
        forall|i: int| 0 <= i < infos@.len() ==> infos@[i] == old(manager)@@.info(i as nat),
        forall|i: int|
            0 <= i < infos@.len() ==> {
                &&& #[trigger] infos@[i].id == i
                &&& infos@[i].start == old(manager)@@.app_start[i]
                &&& infos@[i].end == old(manager)@@.app_start[i + 1]
            },
{
    log_app_info(manager)
}

/// The lines that describe the applications of the kernel's manager.
pub fn log_app_info(manager: &mut UPSafeCell<AppManager>) -> (infos: Vec<AppInfo>)
    requires
        old(manager)@@.wf(),
    ensures
        final(manager)@@ == old(manager)@@,
        infos@.len() == old(manager)@@.num_app,
        forall|i: int| 0 <= i < infos@.len() ==> infos@[i] == old(manager)@@.info(i as nat),
        forall|i: int|
            0 <= i < infos@.len() ==> {
                &&& #[trigger] infos@[i].id == i
                &&& infos@[i].start == old(manager)@@.app_start[i]
                &&& infos@[i].end == old(manager)@@.app_start[i + 1]
            },
{
    let app_manager = manager.exclusive_access();
    app_manager.log_app_info()
}

/// Runs the next application of the kernel's manager: see
/// [`AppManager::run_next_app`].
pub fn run_next_app(
    manager: &mut UPSafeCell<AppManager>,
    kernel_stack: &KernelStack,
    user_stack: &UserStack,
    sstatus: usize,
) -> (step: RunStep)
    requires
        old(manager)@@.wf(),
        old(manager)@@.image_ordered(old(manager)@@.current_app),
        kernel_stack.fits(),
        user_stack.fits(),
        stacks_disjoint(*kernel_stack, *user_stack),
    ensures
        final(manager)@@.wf(),
        final(manager)@@ == after_run(old(manager)@@),
        step is Shutdown <==> next_run(old(manager)@@) is None,
        step is Shutdown ==> step == (RunStep::Shutdown { failure: false }),
        step matches RunStep::Run { app_id, image, context, context_addr } ==> {
            &&& next_run(old(manager)@@) == Some(app_id as nat)
            &&& image == old(manager)@@.image(app_id as nat)
            &&& image.src == old(manager)@@.app_start[app_id as int]
            &&& image.len == old(manager)@@.app_start[app_id + 1int] - old(manager)@@.app_start[app_id as int]
            &&& TrapContext::is_app_init_context(
                context,
                APP_BASE_ADDRESS,
                (user_stack.base + USER_STACK_SIZE) as usize,
                sstatus,
            )
            &&& context_addr == kernel_stack.base + KERNEL_STACK_SIZE - trap_context_size()
            &&& context_addr + trap_context_size() <= user_stack.base
                || user_stack.base + USER_STACK_SIZE <= context_addr
        },
{
    let app_manager = manager.exclusive_access();
    app_manager.run_next_app(kernel_stack, user_stack, sstatus)
}

} // verus!

verus! {

/// The state of the manager after `k` run steps from `m`.
pub open spec fn state_after(m: AppManagerView, k: nat) -> AppManagerView
    decreases k,
{
    if k == 0 {
        m
    } else {
        state_after(after_run(m), (k - 1) as nat)
    }
}

/// Every run step keeps the manager well formed and leaves its table as it
/// is: from a well-formed manager whose images are all ordered, every state
/// that run steps reach is well formed, has at most [`MAX_APP_NUM`]
/// applications, and meets what [`AppManager::run_next_app`] requires of the
/// manager.
pub proof fn lemma_run_steps_keep_manager_well_formed(m: AppManagerView, k: nat)
    requires
        m.wf(),
        m.table_ordered(),
    ensures
        state_after(m, k).wf(),
        state_after(m, k).num_app == m.num_app,
        state_after(m, k).app_start == m.app_start,
        state_after(m, k).table_ordered(),
        state_after(m, k).image_ordered(state_after(m, k).current_app),
    decreases k,
{
    if k > 0 {
        let n = after_run(m);
        assert(n.table_ordered()) by {
            assert forall|id: nat| #[trigger] n.image_ordered(id) by {
                assert(m.image_ordered(id));
            }
        }
        lemma_run_steps_keep_manager_well_formed(n, (k - 1) as nat);
    } else {
        assert(m.image_ordered(m.current_app));
    }
}

} // verus!

verus! {

/// The image of an application lies exactly between its start in the table
/// and the next entry: it starts at `app_start[id]` and is
/// `app_start[id + 1] - app_start[id]` bytes long.
pub proof fn lemma_image_is_table_span(m: AppManagerView, id: nat)
    requires
        id < m.num_app,
        m.image_ordered(id),
    ensures
        m.image(id).src == m.app_start[id as int],
        m.image(id).len == m.app_start[id + 1int] - m.app_start[id as int],
        m.image(id).src + m.image(id).len == m.app_start[id + 1int],
{
}

/// The line that describes application `id` names it and gives the two
/// table entries that bound its image.
pub proof fn lemma_info_is_table_entries(m: AppManagerView, id: nat)
    ensures
        m.info(id).id == id as usize,
        m.info(id).start == m.app_start[id as int],
        m.info(id).end == m.app_start[id + 1int],
{
}

/// Loading leaves the whole image, byte for byte whatever its bytes, at the
/// start of the area, zeros after it up to [`APP_SIZE_LIMIT`], and the rest
/// of the area as it was; the area keeps its length.
pub proof fn lemma_loaded_area_holds_whole_image(before: Seq<u8>, image: Seq<u8>)
    requires
        before.len() >= APP_SIZE_LIMIT,
        before.len() >= image.len(),
    ensures
        loaded_area(before, image).len() == before.len(),
        loaded_area(before, image).subrange(0, image.len() as int) == image,
        forall|i: int|
            image.len() <= i < APP_SIZE_LIMIT ==> #[trigger] loaded_area(before, image)[i] == 0u8,
        forall|i: int|
            APP_SIZE_LIMIT <= i < before.len() && image.len() <= i ==> #[trigger] loaded_area(
                before,
                image,
            )[i] == before[i],
{
    assert(loaded_area(before, image).subrange(0, image.len() as int) =~= image);
}

} // verus!
