# vas_got_vision

A voice assistant that walks a cook through a recipe and, with a camera or an eye
tracker, weighs what it sees and adapts the rest of the recipe to it. The
assistant is a set of actors that exchange messages.

`src/` is the verified library, written in Verus:

- `config`: the command line and its options.
- `messages`, `state`, `routing`: the messages of the actors, the speaker's
  state, and how the core actor routes each message.
- `intent`, `recognition`, `speech`, `i18n`, `text`: what was heard, what is said,
  in four languages.
- `cooking`, `revision`, `recipe`, `recipe_step`, `render`: ingredients and their
  amounts, the measured changes, the recipes and the texts of their steps
  (rendered through Handlebars).
- `step`, `cooking_step`, `action`, `task`, `cooking_task`, `viewing_task`,
  `context`: the steps of a task, the tasks, and the context actor's decisions.
- `vision`, `seeing`, `marker`: what the vision looks for and reports.
- `agent`: the settings and decisions of the simpler voice agent.

`app/` is the program around it: threads, channels, the microphone and speech
engines, the speech synthesizer, the camera, the eye tracker and the image
processing, none of which the library holds.

`tests/` runs the library on concrete values.
