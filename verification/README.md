# rysyn

The verified core of the Rysyn digital audio workstation.

`src/` is the library, verified with Verus:

- `commands` – the commands the interface sends to the audio core;
- `state` – the state snapshot the audio core publishes;
- `bridge` – the bounded command queue and the published snapshot, with
  the laws of the queue (first in, first out; never over capacity);
- `project` – the project model and the desktop shell's project operations;
- `loader` – the decisions of the audio-file decoding loop;
- `cache` – decoded files by path, each loaded once;
- `synth` – per-track oscillator phases;
- `color` – the track palette and packed colours;
- `text` – text helpers: decimal notation, substring search, lowercase
  and file extensions;
- `panels` – what each interface panel does on user input.

Real numbers (gains, pans, positions, tempi) are carried as IEEE-754 bit
patterns; the library never computes on them.

`app/` is the program around the library: the egui interface, the C-ABI
exports for the audio core, the Python module, the audio engine and file
decoding. `tests/` exercises the library.
