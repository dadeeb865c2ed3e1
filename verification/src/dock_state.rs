use vstd::prelude::*;

verus! {

/// The panels of the emulator window.
#[derive(Debug, Clone, PartialEq, Eq, Structural)]
pub enum Tab {
    Emulator,
    CpuViewer,
    PpuViewer,
    MemoryEditor,
    ApuWaveform,
    Settings,
    Terminal,
}

impl Tab {
    /// The caption shown on the tab of the panel.
    pub fn title(&self) -> (s: &'static str)
        ensures
            s@ == (match *self {
                Tab::Emulator => "NES"@,
                Tab::CpuViewer => "CPU"@,
                Tab::PpuViewer => "PPU"@,
                Tab::MemoryEditor => "Memory"@,
                Tab::ApuWaveform => "APU"@,
                Tab::Settings => "Settings"@,
                Tab::Terminal => "Terminal"@,
            }),
    {
        match self {
            Tab::Emulator => "NES",
            Tab::CpuViewer => "CPU",
            Tab::PpuViewer => "PPU",
            Tab::MemoryEditor => "Memory",
            Tab::ApuWaveform => "APU",
            Tab::Settings => "Settings",
            Tab::Terminal => "Terminal",
        }
    }
}

} // verus!
