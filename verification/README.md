# ayuz

Verified core of Ayuz, an unofficial control center for Asus laptops.

`src/` is the library, checked by Verus:

- `relais`: the NumberPad pointer relay (withholding, replaying and dropping touchpad frames).
- `geraet`: the uinput clone the relay writes to, with a record of each write.
- `tippen`: the palm-rejection watcher as a state machine, and which keys count as typing.
- `typing`: the "disable while typing" settings and the life of the watcher task.
- `ruhezustand`: the keyboard-backlight timeout and the `swayidle` command it runs.
- `zielmodus`: KWin's "dim inactive windows" settings and the KDE tool arguments.
- `desktop`: which desktop runs and how the touchpad is switched there.
- `befehle`: judging the outcome of external programs.
- `sprachen`: the interface languages.
- `text`, `zahlen`: string comparison and search, decimal writing and reading.

`app/` is the GTK application around it: windows, processes, devices and the event loops.
