use vstd::prelude::*;

verus! {

/// One command of a per-image command buffer. The application turns each
/// into the matching graphics-API call.
#[derive(Clone, Copy, PartialEq, Eq, Structural, Debug)]
pub enum DrawCommand {
    /// Begin the buffer, allowing simultaneous use.
    BeginCommandBuffer,
    /// Begin the render pass on the framebuffer of `image_index`, over the
    /// whole extent, clearing colour to opaque black, depth to 1 and stencil to 0.
    BeginRenderPass { image_index: u32 },
    /// Bind the graphics pipeline.
    BindPipeline,
    /// Bind the mesh's vertex buffer at offset 0.
    BindVertexBuffer,
    /// Bind the mesh's index buffer at offset 0, with 32-bit indices.
    BindIndexBuffer,
    /// Bind the descriptor set of `image_index`.
    BindDescriptorSet { image_index: u32 },
    /// Push the model matrix of instance `instance` as vertex-stage constants.
    PushModelMatrix { instance: usize },
    /// One indexed draw of one instance over `index_count` indices.
    DrawIndexed { index_count: u32 },
    EndRenderPass,
    EndCommandBuffer,
}

/// The commands before the per-instance draws.
pub open spec fn prologue(image_index: u32) -> Seq<DrawCommand> {
    seq![
        DrawCommand::BeginCommandBuffer,
        DrawCommand::BeginRenderPass { image_index },
        DrawCommand::BindPipeline,
        DrawCommand::BindVertexBuffer,
        DrawCommand::BindIndexBuffer,
        DrawCommand::BindDescriptorSet { image_index },
    ]
}

/// The commands after the per-instance draws.
pub open spec fn epilogue() -> Seq<DrawCommand> {
    seq![DrawCommand::EndRenderPass, DrawCommand::EndCommandBuffer]
}

/// For each of the first `n` instances, its constants and then its draw.
pub open spec fn instance_commands(index_counts: Seq<u32>, n: nat) -> Seq<DrawCommand>
    decreases n,
{
    if n == 0 {
        Seq::empty()
    } else {
        instance_commands(index_counts, (n - 1) as nat) + seq![
            DrawCommand::PushModelMatrix { instance: (n - 1) as usize },
            DrawCommand::DrawIndexed { index_count: index_counts[n - 1] },
        ]
    }
}

/// The full command buffer of one swapchain image.
pub open spec fn recorded_commands(image_index: u32, index_counts: Seq<u32>) -> Seq<DrawCommand> {
    prologue(image_index) + instance_commands(index_counts, index_counts.len()) + epilogue()
}

/// The commands of the command buffer for swapchain image `image_index`,
/// drawing one instance per entry of `instance_index_counts`, each over its
/// mesh's full index count.
pub fn record_command_buffer(image_index: u32, instance_index_counts: &Vec<u32>) -> (r: Vec<DrawCommand>)
    ensures
        r@ == recorded_commands(image_index, instance_index_counts@),
{
    let mut r: Vec<DrawCommand> = Vec::new();
    r.push(DrawCommand::BeginCommandBuffer);
    r.push(DrawCommand::BeginRenderPass { image_index });
    r.push(DrawCommand::BindPipeline);
    r.push(DrawCommand::BindVertexBuffer);
    r.push(DrawCommand::BindIndexBuffer);
    r.push(DrawCommand::BindDescriptorSet { image_index });
    assert(r@ =~= prologue(image_index) + instance_commands(instance_index_counts@, 0));
    let mut k: usize = 0;
    while k < instance_index_counts.len()
        invariant
            k <= instance_index_counts@.len(),
            r@ == prologue(image_index) + instance_commands(instance_index_counts@, k as nat),
        decreases instance_index_counts@.len() - k,
    {
        r.push(DrawCommand::PushModelMatrix { instance: k });
        r.push(DrawCommand::DrawIndexed { index_count: instance_index_counts[k] });
        k += 1;
        assert(r@ =~= prologue(image_index) + instance_commands(instance_index_counts@, k as nat));
    }
    r.push(DrawCommand::EndRenderPass);
    r.push(DrawCommand::EndCommandBuffer);
    assert(r@ =~= recorded_commands(image_index, instance_index_counts@));
    r
}

proof fn lemma_instance_commands_len(index_counts: Seq<u32>, n: nat)
    ensures
        instance_commands(index_counts, n).len() == 2 * n,
    decreases n,
{
    if n > 0 {
        lemma_instance_commands_len(index_counts, (n - 1) as nat);
    }
}

proof fn lemma_instance_commands_at(index_counts: Seq<u32>, n: nat, k: int)
    requires
        0 <= k < n,
    ensures
        instance_commands(index_counts, n)[2 * k] == (DrawCommand::PushModelMatrix { instance: k as usize }),
        instance_commands(index_counts, n)[2 * k + 1] == (DrawCommand::DrawIndexed { index_count: index_counts[k] }),
    decreases n,
{
    lemma_instance_commands_len(index_counts, (n - 1) as nat);
    if k < n - 1 {
        lemma_instance_commands_at(index_counts, (n - 1) as nat, k);
    }
}

/// Every instance is drawn exactly once, in order, after its own constants
/// and inside the render pass, which is begun on the image's framebuffer with
/// the image's descriptor set bound.
pub proof fn lemma_each_instance_drawn(image_index: u32, index_counts: Seq<u32>, k: int)
    requires
        0 <= k < index_counts.len(),
    ensures
        recorded_commands(image_index, index_counts).len() == 8 + 2 * index_counts.len(),
        recorded_commands(image_index, index_counts)[1] == (DrawCommand::BeginRenderPass { image_index }),
        recorded_commands(image_index, index_counts)[5] == (DrawCommand::BindDescriptorSet { image_index }),
        recorded_commands(image_index, index_counts)[6 + 2 * k] == (DrawCommand::PushModelMatrix { instance: k as usize }),
        recorded_commands(image_index, index_counts)[7 + 2 * k] == (DrawCommand::DrawIndexed { index_count: index_counts[k] }),
{
    let n = index_counts.len();
    lemma_instance_commands_len(index_counts, n);
    lemma_instance_commands_at(index_counts, n, k);
    let body = instance_commands(index_counts, n);
    assert(recorded_commands(image_index, index_counts) == prologue(image_index) + body + epilogue());
    assert((prologue(image_index) + body)[6 + 2 * k] == body[2 * k]);
    assert((prologue(image_index) + body)[7 + 2 * k] == body[2 * k + 1]);
}

} // verus!
